//! Authentication: the claims a token carries, the token secret, and how a
//! request's bearer token is found and turned into an authorization.

use vstd::prelude::*;
use jsonwebtoken::{DecodingKey, EncodingKey, Header, Validation};
use crate::text::{split_text, split_on, texts, first_index_of, remove_occurrences, remove_all,
    same_text, lemma_first_index_of};

verus! {

/// What a token says about its holder.
pub struct Claims {
    pub id: u128,
    pub email: String,
    /// When the token was issued, in milliseconds since the Unix epoch.
    pub iat: u64,
}

/// The secret with which tokens are signed and checked.
pub struct Jwt {
    secret: String,
}

impl View for Jwt {
    type V = Seq<char>;

    closed spec fn view(&self) -> Seq<char> {
        self.secret@
    }
}

impl Jwt {
    /// A token helper for `secret`.
    pub fn new(secret: String) -> (jwt: Jwt)
        ensures
            jwt@ == secret@,
    {
        Jwt { secret }
    }

    /// The secret.
    pub fn secret(&self) -> (s: &str)
        ensures
            s@ == self@,
    {
        self.secret.as_str()
    }

    /// A token for a user's id and email, issued at `iat` (milliseconds
    /// since the Unix epoch): signed with this secret, and read back by
    /// [`Jwt::get_claims`] as exactly these claims.
    pub fn encode(&self, id: u128, email: String, iat: u64) -> (t: String)
        ensures
            t@ == signed_token(self@, id, email@, iat),
            token_claims(t@, self@) == Some((id, email@, iat)),
    {
        match encode_token(self.secret.as_str(), id, email.as_str(), iat) {
            Some(t) => t,
            None => String::new(),
        }
    }

    /// The claims of a token signed with this secret, if its signature
    /// checks out and it carries them. Tokens are not checked for expiry:
    /// the outcome depends on the token and the secret alone.
    pub fn get_claims(&self, token: &str) -> (c: Option<Claims>)
        ensures
            match token_claims(token@, self@) {
                Some((id, email, iat)) => c matches Some(x) && x.id == id && x.email@ == email && x.iat == iat,
                None => c is None,
            },
    {
        match decode_token(token, self.secret.as_str()) {
            Some((id, email, iat)) => Some(Claims { id, email, iat }),
            None => None,
        }
    }
}

/// Name for the claims that `jsonwebtoken::decode` (HS256, expiry not
/// validated) reads from `token` signed with `secret`: the user id (the
/// UUID text of the `id` member), the `email` member and the `iat` member;
/// `None` when the signature or the token's form does not check out or a
/// member is missing or of another kind.
pub uninterp spec fn token_claims(token: Seq<char>, secret: Seq<char>) -> Option<(u128, Seq<char>, u64)>;

/// Name for the token that `jsonwebtoken::encode` (default HS256 header)
/// writes for the claims `{"id": <UUID text>, "email": .., "iat": ..}`
/// signed with `secret`.
pub uninterp spec fn signed_token(secret: Seq<char>, id: u128, email: Seq<char>, iat: u64) -> Seq<char>;

/// `jsonwebtoken::decode` of the token's claims object with
/// `Validation { validate_exp: false, ..Default::default() }`, then its
/// `id` member parsed by `Uuid::parse_str`, its `email` member as text and
/// its `iat` member as an unsigned number. The outcome is named by
/// [`token_claims`]; nothing depends on the clock, since no time-based
/// check is enabled.
#[verifier::external_body]
fn decode_token(token: &str, secret: &str) -> (c: Option<(u128, String, u64)>)
    ensures
        match token_claims(token@, secret@) {
            Some((id, email, iat)) => c matches Some(x) && x.0 == id && x.1@ == email && x.2 == iat,
            None => c is None,
        },
{
    let validation = Validation { validate_exp: false, ..Default::default() };
    let key = DecodingKey::from_secret(secret.as_bytes());
    let data = jsonwebtoken::decode::<serde_json::Map<String, serde_json::Value>>(token, &key, &validation).ok()?;
    let id = uuid::Uuid::parse_str(data.claims.get("id")?.as_str()?).ok()?.as_u128();
    let email = data.claims.get("email")?.as_str()?.to_string();
    Some((id, email, data.claims.get("iat")?.as_u64()?))
}

/// `jsonwebtoken::encode` with the default header (HS256) of the claims
/// `{"id": <hyphenated UUID text>, "email": .., "iat": ..}` and the secret.
///
/// The token is named by [`signed_token`]. Signing with an HMAC key and
/// the HS256 header cannot fail (the key's family matches the algorithm
/// and a JSON object always serializes), and decoding the token with the
/// same secret gives the claims back: the signature checks out, the UUID
/// text parses to the same id, and text and number come back unchanged.
#[verifier::external_body]
fn encode_token(secret: &str, id: u128, email: &str, iat: u64) -> (t: Option<String>)
    ensures
        t is Some,
        t is Some ==> t->0@ == signed_token(secret@, id, email@, iat),
        t is Some ==> token_claims(t->0@, secret@) == Some((id, email@, iat)),
{
    let mut claims = serde_json::Map::new();
    claims.insert("id".to_string(), serde_json::Value::from(uuid::Uuid::from_u128(id).to_string()));
    claims.insert("email".to_string(), serde_json::Value::from(email));
    claims.insert("iat".to_string(), serde_json::Value::from(iat));
    jsonwebtoken::encode(&Header::default(), &claims, &EncodingKey::from_secret(secret.as_bytes())).ok()
}

/// An authenticated request: the claims of its valid token.
pub struct AuthorizationService {
    pub claims: Claims,
}

/// Why a request is not authorized: it had no valid token.
pub enum AuthorizationError {
    Unauthorized,
}

impl AuthorizationError {
    /// The HTTP status of the refusal: 401.
    pub fn status_code(&self) -> (code: u16)
        ensures
            code == 401,
    {
        401
    }

    /// The error's message.
    pub fn message(&self) -> (m: String)
        ensures
            m@ == "Unauthorized"@,
    {
        "Unauthorized".to_string()
    }
}

impl AuthorizationService {
    /// The authorization for the claims of a token, or the refusal when no
    /// valid token gave claims.
    pub fn from_claims(claims: Option<Claims>) -> (res: Result<AuthorizationService, AuthorizationError>)
        ensures
            match claims {
                Some(c) => res matches Ok(service) && service.claims == c,
                None => res matches Err(AuthorizationError::Unauthorized),
            },
    {
        match claims {
            Some(claims) => Ok(AuthorizationService { claims }),
            None => Err(AuthorizationError::Unauthorized),
        }
    }
}

/// The token in an `Authorization` header value: the value with every
/// `"Bearer "` removed.
pub open spec fn header_token(value: Seq<char>) -> Seq<char> {
    remove_all(value, "Bearer "@)
}

/// The token of an `Authorization` header, if the request has one.
pub fn header_bearer_token(value: Option<&str>) -> (token: Option<String>)
    ensures
        match value {
            Some(v) => token matches Some(t) && t@ == header_token(v@),
            None => token is None,
        },
{
    match value {
        Some(v) => {
            let pat = "Bearer ";
            proof {
                reveal_strlit("Bearer ");
            }
            Some(remove_occurrences(v, pat))
        },
        None => None,
    }
}

/// The name of a query parameter: the part before its first `=`.
pub open spec fn param_key(p: Seq<char>) -> Seq<char> {
    match first_index_of(p, '=') {
        Some(j) => p.take(j),
        None => p,
    }
}

/// The value of a query parameter: the part after its first `=`.
pub open spec fn param_value(p: Seq<char>) -> Seq<char> {
    match first_index_of(p, '=') {
        Some(j) => p.skip(j + 1),
        None => Seq::<char>::empty(),
    }
}

/// Whether a query parameter is `bearer=<value>`: it holds an `=`, and the
/// part before the first one is `bearer`.
pub open spec fn is_bearer_param(p: Seq<char>) -> bool {
    first_index_of(p, '=') is Some && param_key(p) == "bearer"@
}

/// The values of the `bearer=<value>` parameters, in order.
pub open spec fn bearer_values(params: Seq<Seq<char>>) -> Seq<Seq<char>>
    decreases params.len(),
{
    if params.len() == 0 {
        Seq::<Seq<char>>::empty()
    } else {
        let before = bearer_values(params.drop_last());
        if is_bearer_param(params.last()) {
            before.push(param_value(params.last()))
        } else {
            before
        }
    }
}

/// The token of a query string: the value of its `bearer` parameter when
/// there is exactly one such parameter.
pub open spec fn query_token(query: Seq<char>) -> Option<Seq<char>> {
    let values = bearer_values(split_on(query, '&'));
    if values.len() == 1 {
        Some(values[0])
    } else {
        None
    }
}

/// The token in a query string, if it has exactly one `bearer=<value>`
/// parameter. Any query is read: a parameter without `=` is no `bearer`
/// parameter, and an empty query has none.
pub fn query_bearer_token(query: &str) -> (token: Option<String>)
    ensures
        match query_token(query@) {
            Some(t) => token matches Some(s) && s@ == t,
            None => token is None,
        },
{
    let params = split_text(query, '&');
    let mut values: Vec<String> = Vec::new();
    let mut i: usize = 0;
    let n = params.len();
    proof {
        reveal_strlit("bearer");
        assert(params@.take(0) =~= Seq::<String>::empty());
        assert(texts(params@.take(0)) =~= Seq::<Seq<char>>::empty());
    }
    while i < n
        invariant
            n == params@.len(),
            i <= n,
            texts(params@) == split_on(query@, '&'),
            texts(values@) == bearer_values(texts(params@.take(i as int))),
        decreases n - i,
    {
        let p = params[i].as_str();
        let ghost ps = texts(params@.take(i + 1));
        assert(ps.drop_last() =~= texts(params@.take(i as int)));
        assert(ps.last() == p@);
        let len = p.unicode_len();
        let mut j: usize = 0;
        while j < len && p.get_char(j) != '='
            invariant
                len == p@.len(),
                j <= len,
                forall|k: int| 0 <= k < j ==> p@[k] != '=',
            decreases len - j,
        {
            j = j + 1;
        }
        if j == len {
            proof {
                crate::text::lemma_first_index_of_none(p@, '=');
            }
            assert(texts(values@) =~= bearer_values(ps));
            i = i + 1;
            continue;
        }
        proof {
            lemma_first_index_of(p@, '=', j as int);
        }
        let key = p.substring_char(0, j);
        assert(key@ =~= param_key(p@));
        if same_text(key, "bearer") {
            let value = p.substring_char(j + 1, len);
            assert(value@ =~= param_value(p@));
            values.push(value.to_string());
            assert(texts(values@) =~= bearer_values(ps));
        } else {
            assert(texts(values@) =~= bearer_values(ps));
        }
        i = i + 1;
    }
    assert(params@.take(n as int) =~= params@);
    if values.len() == 1 {
        let v = values.pop().unwrap();
        Some(v)
    } else {
        None
    }
}

/// The tokens a request offers, in the order they are tried: the token of
/// its `Authorization` header, if it has one, then the token of its query
/// string, if that has exactly one `bearer` parameter.
pub open spec fn offered_tokens(header: Option<Seq<char>>, query: Seq<char>) -> Seq<Seq<char>> {
    let from_header = match header {
        Some(v) => seq![header_token(v)],
        None => Seq::<Seq<char>>::empty(),
    };
    let from_query = match query_token(query) {
        Some(t) => seq![t],
        None => Seq::<Seq<char>>::empty(),
    };
    from_header + from_query
}

/// The tokens of a request, header first, then query string.
pub fn candidate_tokens(header: Option<&str>, query: &str) -> (tokens: Vec<String>)
    ensures
        texts(tokens@) == offered_tokens(
            match header {
                Some(v) => Some(v@),
                None => None,
            },
            query@,
        ),
{
    let mut tokens: Vec<String> = Vec::new();
    let from_header = header_bearer_token(header);
    match from_header {
        Some(t) => tokens.push(t),
        None => {},
    }
    let from_query = query_bearer_token(query);
    match from_query {
        Some(t) => tokens.push(t),
        None => {},
    }
    assert(texts(tokens@) =~= offered_tokens(
        match header {
            Some(v) => Some(v@),
            None => None,
        },
        query@,
    ));
    tokens
}

/// The claims of the first of `tokens` that decodes with `secret`, in the
/// order the tokens are tried.
pub open spec fn first_token_claims(tokens: Seq<Seq<char>>, secret: Seq<char>) -> Option<(u128, Seq<char>, u64)>
    decreases tokens.len(),
{
    if tokens.len() == 0 {
        None
    } else {
        match token_claims(tokens[0], secret) {
            Some(c) => Some(c),
            None => first_token_claims(tokens.skip(1), secret),
        }
    }
}

/// The optional header as a plain value.
pub open spec fn header_text(header: Option<&str>) -> Option<Seq<char>> {
    match header {
        Some(v) => Some(v@),
        None => None,
    }
}

/// Authorize a request from its `Authorization` header and query string:
/// the header's token is tried first, then the query's `bearer` token; the
/// first that decodes with the secret authorizes the request with its
/// claims, and without one the request is refused with `Unauthorized`.
pub fn authorize_request(jwt: &Jwt, header: Option<&str>, query: &str) -> (res: Result<AuthorizationService, AuthorizationError>)
    ensures
        match first_token_claims(offered_tokens(header_text(header), query@), jwt@) {
            Some((id, email, iat)) => res matches Ok(service) && service.claims.id == id
                && service.claims.email@ == email && service.claims.iat == iat,
            None => res matches Err(AuthorizationError::Unauthorized),
        },
{
    let tokens = candidate_tokens(header, query);
    let ghost all = texts(tokens@);
    assert(all == offered_tokens(header_text(header), query@));
    let n = tokens.len();
    let mut i: usize = 0;
    assert(all.skip(0) =~= all);
    while i < n
        invariant
            n == tokens@.len(),
            i <= n,
            all == texts(tokens@),
            all == offered_tokens(header_text(header), query@),
            first_token_claims(all, jwt@) == first_token_claims(all.skip(i as int), jwt@),
        decreases n - i,
    {
        let ghost rest = all.skip(i as int);
        assert(rest[0] == tokens@[i as int]@);
        assert(rest.skip(1) =~= all.skip(i + 1));
        match jwt.get_claims(tokens[i].as_str()) {
            Some(claims) => {
                return AuthorizationService::from_claims(Some(claims));
            },
            None => {},
        }
        i = i + 1;
    }
    assert(all.skip(n as int) =~= Seq::<Seq<char>>::empty());
    AuthorizationService::from_claims(None)
}

/// A request with no `Authorization` header and an empty query string
/// offers no token, so it is refused with `Unauthorized`.
pub proof fn lemma_no_credentials_refused(secret: Seq<char>)
    ensures
        offered_tokens(None, Seq::<char>::empty()) == Seq::<Seq<char>>::empty(),
        first_token_claims(offered_tokens(None, Seq::<char>::empty()), secret) is None,
{
    let params = split_on(Seq::<char>::empty(), '&');
    assert(params == seq![Seq::<char>::empty()]);
    assert(params.drop_last() =~= Seq::<Seq<char>>::empty());
    assert(bearer_values(params.drop_last()) =~= Seq::<Seq<char>>::empty());
    assert(params.last() == Seq::<char>::empty());
    assert(first_index_of(params.last(), '=') is None);
    assert(!is_bearer_param(params.last()));
    assert(bearer_values(params) =~= Seq::<Seq<char>>::empty());
    assert(offered_tokens(None, Seq::<char>::empty()) =~= Seq::<Seq<char>>::empty());
}

/// The header is tried first: when its token decodes, its claims authorize
/// the request, whatever the query string holds.
pub proof fn lemma_header_claims_win(value: Seq<char>, query: Seq<char>, secret: Seq<char>)
    requires
        token_claims(header_token(value), secret) is Some,
    ensures
        first_token_claims(offered_tokens(Some(value), query), secret) == token_claims(header_token(value), secret),
{
    let tokens = offered_tokens(Some(value), query);
    assert(tokens[0] == header_token(value));
}

/// A token this service signed, sent as `Authorization: Bearer <token>`,
/// authorizes the request with the claims it was signed for (a signed
/// token never holds `"Bearer "`, as its three Base64url parts and two dots
/// hold no space).
pub proof fn lemma_bearer_token_authorizes(token: Seq<char>, query: Seq<char>, secret: Seq<char>, claims: (u128, Seq<char>, u64))
    requires
        token_claims(token, secret) == Some(claims),
        remove_all(token, "Bearer "@) == token,
    ensures
        first_token_claims(offered_tokens(Some("Bearer "@ + token), query), secret) == Some(claims),
{
    lemma_bearer_header_yields_token(token);
    lemma_header_claims_win("Bearer "@ + token, query, secret);
}

/// An `Authorization` header `Bearer <token>` yields the token itself,
/// provided the token holds no `"Bearer "` of its own.
pub proof fn lemma_bearer_header_yields_token(token: Seq<char>)
    requires
        remove_all(token, "Bearer "@) == token,
    ensures
        header_token("Bearer "@ + token) == token,
{
    reveal_strlit("Bearer ");
    let p = "Bearer "@;
    let s = p + token;
    assert(s.take(p.len() as int) =~= p);
    assert(s.skip(p.len() as int) =~= token);
}

} // verus!
