//! The identity provider client: the URLs and requests it sends, how it
//! reads the provider's replies, and how it decodes an identity token.

use vstd::prelude::*;
use vstd::string::*;
use vstd::utf8::{decode_utf8, encode_utf8, valid_utf8};
use crate::clock::unix_now;
use crate::codec::{
    base64_fits, base64url_decode, base64url_decoded, base64url_encode, base64url_encoded,
    is_base64url_char, utf8_text,
};
use crate::config::{lookup, text_or, var, var_or, vars_view};
use crate::error::{auth_failure, AppError, AppErrorView, AppResult, ErrorKind};
use crate::jose::{hs256_opened, open_hs256, open_rs256, rs256_opened};
use crate::json::{
    all_exact, json_array_parsed, json_object_parsed, json_object_rendered, nested_text,
    optional_text, parse_array, required_int, required_text, text_or_null, JsonFieldView,
    JsonObject,
};
use crate::models::user::{UpsertUser, UpsertUserView};
use crate::text::{
    clone_optional, lemma_split_first, lemma_split_nonempty, lemma_split_whole, split,
    split_at_char, str_eq,
};

verus! {

/// Replit Auth configuration.
#[derive(Debug, PartialEq, Eq)]
pub struct ReplitAuthConfig {
    /// The OpenID-connect issuer URL.
    pub issuer_url: String,
    /// Client id of this service.
    pub repl_id: String,
    /// Callback URL for the auth flow.
    pub callback_url: String,
    /// Domain where the app is running.
    pub domain: String,
}

impl Clone for ReplitAuthConfig {
    fn clone(&self) -> (copy: Self)
        ensures
            copy == *self,
    {
        ReplitAuthConfig {
            issuer_url: self.issuer_url.clone(),
            repl_id: self.repl_id.clone(),
            callback_url: self.callback_url.clone(),
            domain: self.domain.clone(),
        }
    }
}

/// What stands before the first comma of `domains`, or all of it where
/// there is no comma.
pub open spec fn first_domain(domains: Seq<char>) -> Seq<char> {
    split(domains, ',')[0]
}

impl ReplitAuthConfig {
    /// Whether this configuration is what the variables say: the issuer
    /// from `ISSUER_URL` or else Replit's, the client id from `REPL_ID`,
    /// the domain the first of `REPLIT_DOMAINS`, and the callback on
    /// that domain.
    pub open spec fn reads(&self, vars: Seq<(Seq<char>, Seq<char>)>) -> bool {
        &&& self.issuer_url@ == text_or(vars, "ISSUER_URL"@, "https://replit.com/oidc"@)
        &&& Some(self.repl_id@) == lookup(vars, "REPL_ID"@)
        &&& lookup(vars, "REPLIT_DOMAINS"@) matches Some(domains) && self.domain@ == first_domain(
            domains,
        )
        &&& self.callback_url@ == "https://"@ + self.domain@ + "/api/callback"@
    }

    /// Create a new config from environment variables. `REPL_ID` and
    /// `REPLIT_DOMAINS` must be set.
    pub fn from_env(vars: &Vec<(String, String)>) -> (config: AppResult<ReplitAuthConfig>)
        ensures
            match config {
                Ok(c) => c.reads(vars_view(vars@)),
                Err(e) => e.kind() == ErrorKind::Configuration && (if lookup(
                    vars_view(vars@),
                    "REPL_ID"@,
                ) is None {
                    e.message_text() == "REPL_ID environment variable not found"@
                } else {
                    lookup(vars_view(vars@), "REPLIT_DOMAINS"@) is None && e.message_text()
                        == "REPLIT_DOMAINS environment variable not found"@
                }),
            },
    {
        let issuer_url = var_or(vars, "ISSUER_URL", "https://replit.com/oidc");
        let repl_id = match var(vars, "REPL_ID") {
            Some(repl_id) => repl_id,
            None => return Err(
                AppError::Configuration(String::from_str("REPL_ID environment variable not found")),
            ),
        };
        let domains = match var(vars, "REPLIT_DOMAINS") {
            Some(domains) => domains,
            None => return Err(
                AppError::Configuration(
                    String::from_str("REPLIT_DOMAINS environment variable not found"),
                ),
            ),
        };
        let pieces = split_at_char(domains.as_str(), ',');
        proof {
            lemma_split_nonempty(domains@, ',');
            assert(pieces.deep_view()[0] == pieces@[0]@);
        }
        let domain = pieces[0].clone();
        let mut callback_url = String::from_str("https://");
        callback_url.append(domain.as_str());
        callback_url.append("/api/callback");
        Ok(ReplitAuthConfig { issuer_url, repl_id, callback_url, domain })
    }

    /// The text of the authorization URL for `state`.
    pub open spec fn auth_url_text(&self, state: Seq<char>) -> Seq<char> {
        self.issuer_url@ + "/auth?client_id="@ + self.repl_id@ + "&redirect_uri="@
            + self.callback_url@
            + "&response_type=code&scope=openid%20email%20profile%20offline_access&state="@ + state
    }

    /// The text of the end-session URL that sends the browser on to `redirect_uri`.
    pub open spec fn end_session_url_text(&self, redirect_uri: Seq<char>) -> Seq<char> {
        self.issuer_url@ + "/logout?client_id="@ + self.repl_id@ + "&post_logout_redirect_uri="@
            + redirect_uri
    }

    /// Get the OpenID Configuration URL.
    pub fn discovery_url(&self) -> (url: String)
        ensures
            url@ == self.issuer_url@,
    {
        self.issuer_url.clone()
    }

    /// Get the Authorization URL.
    pub fn auth_url(&self, state: &str) -> (url: String)
        ensures
            url@ == self.auth_url_text(state@),
    {
        let mut url = self.issuer_url.clone();
        url.append("/auth?client_id=");
        url.append(self.repl_id.as_str());
        url.append("&redirect_uri=");
        url.append(self.callback_url.as_str());
        url.append("&response_type=code&scope=openid%20email%20profile%20offline_access&state=");
        url.append(state);
        url
    }

    /// Get the token endpoint.
    pub fn token_url(&self) -> (url: String)
        ensures
            url@ == self.issuer_url@ + "/token"@,
    {
        let mut url = self.issuer_url.clone();
        url.append("/token");
        url
    }

    /// Get the end session endpoint for logout.
    pub fn end_session_url(&self, redirect_uri: &str) -> (url: String)
        ensures
            url@ == self.end_session_url_text(redirect_uri@),
    {
        let mut url = self.issuer_url.clone();
        url.append("/logout?client_id=");
        url.append(self.repl_id.as_str());
        url.append("&post_logout_redirect_uri=");
        url.append(redirect_uri);
        url
    }
}

/// OpenID Connect token response.
#[derive(Debug, PartialEq, Eq)]
pub struct TokenResponse {
    pub access_token: String,
    /// The provider may leave this out, on a refresh above all.
    pub refresh_token: Option<String>,
    pub id_token: String,
    /// Lifetime of the access token in seconds from now.
    pub expires_in: i64,
    pub token_type: String,
}

/// The mathematical value of a [`TokenResponse`].
pub struct TokenResponseView {
    pub access_token: Seq<char>,
    pub refresh_token: Option<Seq<char>>,
    pub id_token: Seq<char>,
    pub expires_in: i64,
    pub token_type: Seq<char>,
}

impl View for TokenResponse {
    type V = TokenResponseView;

    open spec fn view(&self) -> TokenResponseView {
        TokenResponseView {
            access_token: self.access_token@,
            refresh_token: self.refresh_token.deep_view(),
            id_token: self.id_token@,
            expires_in: self.expires_in,
            token_type: self.token_type@,
        }
    }
}

impl Clone for TokenResponse {
    fn clone(&self) -> (copy: Self)
        ensures
            copy == *self,
    {
        TokenResponse {
            access_token: self.access_token.clone(),
            refresh_token: clone_optional(&self.refresh_token),
            id_token: self.id_token.clone(),
            expires_in: self.expires_in,
            token_type: self.token_type.clone(),
        }
    }
}

/// User claims from an ID token.
#[derive(Debug, PartialEq, Eq)]
pub struct UserClaims {
    /// The subject: the durable key of the identity.
    pub sub: String,
    pub email: Option<String>,
    pub first_name: Option<String>,
    pub last_name: Option<String>,
    pub profile_image_url: Option<String>,
    /// Issued at, in seconds since the Unix epoch.
    pub iat: i64,
    /// Expires at, in seconds since the Unix epoch.
    pub exp: i64,
}

/// The mathematical value of [`UserClaims`].
pub struct UserClaimsView {
    pub sub: Seq<char>,
    pub email: Option<Seq<char>>,
    pub first_name: Option<Seq<char>>,
    pub last_name: Option<Seq<char>>,
    pub profile_image_url: Option<Seq<char>>,
    pub iat: i64,
    pub exp: i64,
}

impl View for UserClaims {
    type V = UserClaimsView;

    open spec fn view(&self) -> UserClaimsView {
        UserClaimsView {
            sub: self.sub@,
            email: self.email.deep_view(),
            first_name: self.first_name.deep_view(),
            last_name: self.last_name.deep_view(),
            profile_image_url: self.profile_image_url.deep_view(),
            iat: self.iat,
            exp: self.exp,
        }
    }
}

impl Clone for UserClaims {
    fn clone(&self) -> (copy: Self)
        ensures
            copy == *self,
    {
        UserClaims {
            sub: self.sub.clone(),
            email: clone_optional(&self.email),
            first_name: clone_optional(&self.first_name),
            last_name: clone_optional(&self.last_name),
            profile_image_url: clone_optional(&self.profile_image_url),
            iat: self.iat,
            exp: self.exp,
        }
    }
}

/// User session with authentication details.
#[derive(Debug, PartialEq, Eq)]
pub struct UserSession {
    pub claims: UserClaims,
    pub access_token: String,
    pub refresh_token: Option<String>,
    /// The moment the access token expires, in seconds since the Unix epoch.
    pub expires_at: i64,
}

/// The mathematical value of a [`UserSession`].
pub struct UserSessionView {
    pub claims: UserClaimsView,
    pub access_token: Seq<char>,
    pub refresh_token: Option<Seq<char>>,
    pub expires_at: i64,
}

impl View for UserSession {
    type V = UserSessionView;

    open spec fn view(&self) -> UserSessionView {
        UserSessionView {
            claims: self.claims@,
            access_token: self.access_token@,
            refresh_token: self.refresh_token.deep_view(),
            expires_at: self.expires_at,
        }
    }
}

impl Clone for UserSession {
    fn clone(&self) -> (copy: Self)
        ensures
            copy == *self,
    {
        UserSession {
            claims: self.claims.clone(),
            access_token: self.access_token.clone(),
            refresh_token: clone_optional(&self.refresh_token),
            expires_at: self.expires_at,
        }
    }
}

impl UserSession {
    /// Whether the session has run out at `now`: the moment of expiry itself
    /// counts as expired.
    pub open spec fn expired_at(&self, now: i64) -> bool {
        self.expires_at <= now
    }

    /// Whether the session has run out at `now`.
    pub fn is_expired_at(&self, now: i64) -> (expired: bool)
        ensures
            expired == self.expired_at(now),
            expired <==> self.expires_at <= now,
    {
        self.expires_at <= now
    }
}

/// The value of a result that holds claims.
pub open spec fn claims_result(r: AppResult<UserClaims>) -> Result<UserClaimsView, AppErrorView> {
    match r {
        Ok(claims) => Ok(claims@),
        Err(e) => Err(e@),
    }
}

/// The value of a result that holds text.
pub open spec fn text_outcome(r: AppResult<String>) -> Result<Seq<char>, AppErrorView> {
    match r {
        Ok(text) => Ok(text@),
        Err(e) => Err(e@),
    }
}

/// The claims that a JSON object holds: `sub`, `iat` and `exp` must be
/// there, the other four may be missing or `null`; members of other names
/// are ignored.
pub open spec fn claims_in(members: Map<Seq<char>, JsonFieldView>) -> Option<UserClaimsView> {
    match (
        required_text(members, "sub"@),
        optional_text(members, "email"@),
        optional_text(members, "first_name"@),
        optional_text(members, "last_name"@),
        optional_text(members, "profile_image_url"@),
        required_int(members, "iat"@),
        required_int(members, "exp"@),
    ) {
        (
            Some(sub),
            Some(email),
            Some(first_name),
            Some(last_name),
            Some(profile_image_url),
            Some(iat),
            Some(exp),
        ) => Some(
            UserClaimsView { sub, email, first_name, last_name, profile_image_url, iat, exp },
        ),
        _ => None,
    }
}

/// The text of a token segment: Base64url for UTF-8.
pub open spec fn segment_text(segment: Seq<char>) -> Result<Seq<char>, AppErrorView> {
    match base64url_decoded(segment) {
        None => Err(auth_failure("Invalid base64 encoding in token"@)),
        Some(bytes) => if valid_utf8(bytes) {
            Ok(decode_utf8(bytes))
        } else {
            Err(auth_failure("Invalid UTF-8 in token"@))
        },
    }
}

/// What decoding `token` at the moment `now` gives: the claims in the
/// second of its three dot-separated segments, unless they have expired.
pub open spec fn id_token_claims(token: Seq<char>, now: i64) -> Result<
    UserClaimsView,
    AppErrorView,
> {
    let segments = split(token, '.');
    if segments.len() != 3 {
        Err(auth_failure("Invalid ID token format"@))
    } else {
        match segment_text(segments[1]) {
            Err(e) => Err(e),
            Ok(payload) => match json_object_parsed(payload) {
                None => Err(auth_failure("Invalid claims in ID token"@)),
                Some(members) => match claims_in(members) {
                    None => Err(auth_failure("Invalid claims in ID token"@)),
                    Some(claims) => if claims.exp < now {
                        Err(auth_failure("ID token has expired"@))
                    } else {
                        Ok(claims)
                    },
                },
            },
        }
    }
}

/// Base64 decode a JWT segment.
pub fn base64_decode(input: &str) -> (text: AppResult<String>)
    ensures
        text_outcome(text) == segment_text(input@),
{
    match base64url_decode(input) {
        None => Err(AppError::Authentication(String::from_str("Invalid base64 encoding in token"))),
        Some(bytes) => match utf8_text(bytes) {
            None => Err(AppError::Authentication(String::from_str("Invalid UTF-8 in token"))),
            Some(text) => Ok(text),
        },
    }
}

/// Reads the claims out of a JSON object.
pub fn claims_from_json(obj: &JsonObject) -> (claims: Option<UserClaims>)
    ensures
        match claims {
            Some(c) => claims_in(obj@) == Some(c@),
            None => claims_in(obj@) is None,
        },
{
    let sub = match obj.text_of("sub") {
        Some(sub) => sub,
        None => return None,
    };
    let email = match obj.optional_text_of("email") {
        Ok(email) => email,
        Err(_) => return None,
    };
    let first_name = match obj.optional_text_of("first_name") {
        Ok(first_name) => first_name,
        Err(_) => return None,
    };
    let last_name = match obj.optional_text_of("last_name") {
        Ok(last_name) => last_name,
        Err(_) => return None,
    };
    let profile_image_url = match obj.optional_text_of("profile_image_url") {
        Ok(profile_image_url) => profile_image_url,
        Err(_) => return None,
    };
    let iat = match obj.int_of("iat") {
        Some(iat) => iat,
        None => return None,
    };
    let exp = match obj.int_of("exp") {
        Some(exp) => exp,
        None => return None,
    };
    Some(UserClaims { sub, email, first_name, last_name, profile_image_url, iat, exp })
}

/// Decodes an ID token at the moment `now`.
///
/// The token must have three segments separated by dots, the second of
/// them Base64url for a JSON object that holds the claims, and the claims
/// must not have expired before `now`. The signature is not looked at.
pub fn decode_id_token_at(id_token: &str, now: i64) -> (claims: AppResult<UserClaims>)
    ensures
        claims_result(claims) == id_token_claims(id_token@, now),
        claims matches Ok(c) ==> c.exp >= now,
        claims matches Err(e) ==> e.kind() == ErrorKind::Authentication,
{
    let segments = split_at_char(id_token, '.');
    if segments.len() != 3 {
        return Err(AppError::Authentication(String::from_str("Invalid ID token format")));
    }
    assert(segments.deep_view()[1] == segments@[1]@);
    let payload = match base64_decode(segments[1].as_str()) {
        Ok(payload) => payload,
        Err(e) => return Err(e),
    };
    let obj = match JsonObject::parse(payload.as_str()) {
        Some(obj) => obj,
        None => {
            return Err(AppError::Authentication(String::from_str("Invalid claims in ID token")));
        },
    };
    let claims = match claims_from_json(&obj) {
        Some(claims) => claims,
        None => {
            return Err(AppError::Authentication(String::from_str("Invalid claims in ID token")));
        },
    };
    if claims.exp < now {
        return Err(AppError::Authentication(String::from_str("ID token has expired")));
    }
    Ok(claims)
}

/// A key that the provider signs identity tokens with, as it publishes it.
#[derive(Debug, Clone, PartialEq, Eq)]
pub enum ProviderKey {
    /// A secret shared with the provider, for HS256.
    Secret(Vec<u8>),
    /// A public RSA key, for RS256: modulus and exponent in Base64url.
    Rsa { modulus: String, exponent: String },
}

impl ProviderKey {
    /// Whether `token` is well-formed and carries a signature made with this key.
    pub open spec fn signs(&self, token: Seq<char>) -> bool {
        match self {
            ProviderKey::Secret(secret) => hs256_opened(token, secret@) is Ok,
            ProviderKey::Rsa { modulus, exponent } => rs256_opened(
                token,
                modulus@,
                exponent@,
            ) is Ok,
        }
    }

    /// Whether `token` is well-formed and carries a signature made with this key.
    pub fn verifies(&self, token: &str) -> (yes: bool)
        ensures
            yes == self.signs(token@),
    {
        match self {
            ProviderKey::Secret(secret) => open_hs256(token, secret.as_slice()).is_ok(),
            ProviderKey::Rsa { modulus, exponent } => open_rs256(
                token,
                modulus.as_str(),
                exponent.as_str(),
            ).is_ok(),
        }
    }
}

/// The mathematical value of a [`ProviderKey`].
pub enum ProviderKeyView {
    Secret(Seq<u8>),
    Rsa { modulus: Seq<char>, exponent: Seq<char> },
}

impl View for ProviderKey {
    type V = ProviderKeyView;

    open spec fn view(&self) -> ProviderKeyView {
        match self {
            ProviderKey::Secret(secret) => ProviderKeyView::Secret(secret@),
            ProviderKey::Rsa { modulus, exponent } => ProviderKeyView::Rsa {
                modulus: modulus@,
                exponent: exponent@,
            },
        }
    }
}

/// The values of a list of keys.
pub open spec fn key_views(keys: Seq<ProviderKey>) -> Seq<ProviderKeyView> {
    Seq::new(keys.len(), |i: int| keys[i]@)
}

/// The RSA key that a JSON object of a key set holds: its `kty` must be
/// `RSA`, and `n` and `e` must be strings.
pub open spec fn key_in(members: Map<Seq<char>, JsonFieldView>) -> Option<ProviderKeyView> {
    match (required_text(members, "kty"@), required_text(members, "n"@), required_text(
        members,
        "e"@,
    )) {
        (Some(kty), Some(modulus), Some(exponent)) => if kty == "RSA"@ {
            Some(ProviderKeyView::Rsa { modulus, exponent })
        } else {
            None
        },
        _ => None,
    }
}

/// The RSA keys among the items of a key set, in order; an item that
/// holds no RSA key is passed over.
pub open spec fn keys_among(items: Seq<Seq<char>>) -> Seq<ProviderKeyView>
    decreases items.len(),
{
    if items.len() == 0 {
        Seq::<ProviderKeyView>::empty()
    } else {
        let before = keys_among(items.drop_last());
        match json_object_parsed(items.last()) {
            Some(members) => match key_in(members) {
                Some(key) => before.push(key),
                None => before,
            },
            None => before,
        }
    }
}

/// The keys that a key set publishes: the RSA keys among the items of
/// its `keys`; none where the text is no key set.
pub open spec fn published_keys(key_set: Seq<char>) -> Seq<ProviderKeyView> {
    match json_object_parsed(key_set) {
        Some(members) => match nested_text(members, "keys"@) {
            Some(list) => match json_array_parsed(list) {
                Some(items) => keys_among(items),
                None => Seq::<ProviderKeyView>::empty(),
            },
            None => Seq::<ProviderKeyView>::empty(),
        },
        None => Seq::<ProviderKeyView>::empty(),
    }
}

/// Where the provider publishes its keys, as its discovery document says.
pub fn jwks_uri(discovery_document: &str) -> (uri: Option<String>)
    ensures
        uri.deep_view() == (match json_object_parsed(discovery_document@) {
            Some(members) => required_text(members, "jwks_uri"@),
            None => None,
        }),
{
    match JsonObject::parse(discovery_document) {
        Some(document) => document.text_of("jwks_uri"),
        None => None,
    }
}

/// Reads one item of a key set.
fn key_from_json(item: &str) -> (key: Option<ProviderKey>)
    ensures
        match key {
            Some(k) => json_object_parsed(item@) matches Some(members) && key_in(members)
                == Some(k@),
            None => json_object_parsed(item@) matches Some(members) ==> key_in(members) is None,
        },
{
    let obj = match JsonObject::parse(item) {
        Some(obj) => obj,
        None => return None,
    };
    let kty = match obj.text_of("kty") {
        Some(kty) => kty,
        None => return None,
    };
    let modulus = match obj.text_of("n") {
        Some(modulus) => modulus,
        None => return None,
    };
    let exponent = match obj.text_of("e") {
        Some(exponent) => exponent,
        None => return None,
    };
    if str_eq(kty.as_str(), "RSA") {
        Some(ProviderKey::Rsa { modulus, exponent })
    } else {
        None
    }
}

/// The keys that a key set publishes.
pub fn provider_keys(key_set: &str) -> (keys: Vec<ProviderKey>)
    ensures
        key_views(keys@) == published_keys(key_set@),
{
    let mut keys: Vec<ProviderKey> = Vec::new();
    let list = match JsonObject::parse(key_set) {
        Some(obj) => obj.nested_of("keys"),
        None => None,
    };
    let items = match list {
        Some(list) => parse_array(list.as_str()),
        None => None,
    };
    let items = match items {
        Some(items) => items,
        None => {
            assert(key_views(keys@) =~= Seq::<ProviderKeyView>::empty());
            return keys;
        },
    };
    let mut i: usize = 0;
    assert(key_views(keys@) =~= keys_among(items.deep_view().take(0)));
    while i < items.len()
        invariant
            i <= items@.len(),
            key_views(keys@) == keys_among(items.deep_view().take(i as int)),
        decreases items@.len() - i,
    {
        let ghost before = key_views(keys@);
        proof {
            let next = items.deep_view().take(i + 1);
            assert(next.drop_last() =~= items.deep_view().take(i as int));
            assert(next.last() == items@[i as int]@);
        }
        match key_from_json(items[i].as_str()) {
            Some(key) => {
                keys.push(key);
                assert(key_views(keys@) =~= before.push(key@));
            },
            None => {},
        }
        i += 1;
    }
    assert(items.deep_view().take(items@.len() as int) =~= items.deep_view());
    keys
}

/// Whether one of `keys` signs `token`.
pub open spec fn signed_by_one_of(keys: Seq<ProviderKey>, token: Seq<char>) -> bool {
    exists|i: int| 0 <= i < keys.len() && (#[trigger] keys[i]).signs(token)
}

/// A form to post to the provider's token endpoint.
#[derive(Debug, Clone, PartialEq, Eq)]
pub struct TokenRequest {
    pub url: String,
    /// The fields of the form, in order.
    pub form: Vec<(String, String)>,
}

impl TokenRequest {
    /// The fields of the form as pairs of texts.
    pub open spec fn fields(&self) -> Seq<(Seq<char>, Seq<char>)> {
        Seq::new(self.form@.len(), |i: int| (self.form@[i].0@, self.form@[i].1@))
    }
}

/// What came of a request to the provider.
#[derive(Debug, Clone, PartialEq, Eq)]
pub enum ProviderReply {
    /// No answer: the request could not be sent or the connection broke.
    Unreachable { reason: String },
    /// An answer with its HTTP status and body.
    Answered { status: u16, body: String },
}

/// The two grants that the token endpoint is asked for.
#[derive(Debug, Clone, Copy, PartialEq, Eq, Structural)]
pub enum Grant {
    AuthorizationCode,
    RefreshToken,
}

impl Grant {
    /// How a failure to reach the provider is reported.
    pub open spec fn unreachable_text(self) -> Seq<char> {
        match self {
            Grant::AuthorizationCode => "Failed to exchange code: "@,
            Grant::RefreshToken => "Failed to refresh token: "@,
        }
    }

    /// How a refusal by the provider is reported.
    pub open spec fn refused_text(self) -> Seq<char> {
        match self {
            Grant::AuthorizationCode => "Token exchange failed: "@,
            Grant::RefreshToken => "Token refresh failed: "@,
        }
    }
}

/// The value of a result that holds tokens.
pub open spec fn tokens_result(r: AppResult<TokenResponse>) -> Result<
    TokenResponseView,
    AppErrorView,
> {
    match r {
        Ok(tokens) => Ok(tokens@),
        Err(e) => Err(e@),
    }
}

/// The tokens that a JSON object holds: all members but `refresh_token`
/// must be there.
pub open spec fn tokens_in(members: Map<Seq<char>, JsonFieldView>) -> Option<TokenResponseView> {
    match (
        required_text(members, "access_token"@),
        optional_text(members, "refresh_token"@),
        required_text(members, "id_token"@),
        required_int(members, "expires_in"@),
        required_text(members, "token_type"@),
    ) {
        (
            Some(access_token),
            Some(refresh_token),
            Some(id_token),
            Some(expires_in),
            Some(token_type),
        ) => Some(
            TokenResponseView { access_token, refresh_token, id_token, expires_in, token_type },
        ),
        _ => None,
    }
}

/// Whether an HTTP status reports success.
pub open spec fn is_success(status: u16) -> bool {
    200 <= status <= 299
}

/// What the provider's reply to a token request means: an unreachable
/// provider is an external-service error, an answer outside `200..=299`
/// an authentication error that quotes the body, and a body that does
/// not hold the tokens a deserialization error.
pub open spec fn tokens_of_reply(grant: Grant, reply: ProviderReply) -> Result<
    TokenResponseView,
    AppErrorView,
> {
    match reply {
        ProviderReply::Unreachable { reason } => Err(
            AppErrorView {
                kind: ErrorKind::ExternalService,
                message: grant.unreachable_text() + reason@,
            },
        ),
        ProviderReply::Answered { status, body } => if !is_success(status) {
            Err(auth_failure(grant.refused_text() + body@))
        } else {
            match json_object_parsed(body@) {
                None => Err(
                    AppErrorView {
                        kind: ErrorKind::Deserialization,
                        message: "Invalid token response"@,
                    },
                ),
                Some(members) => match tokens_in(members) {
                    None => Err(
                        AppErrorView {
                            kind: ErrorKind::Deserialization,
                            message: "Invalid token response"@,
                        },
                    ),
                    Some(tokens) => Ok(tokens),
                },
            }
        },
    }
}

/// Reads the tokens out of a JSON object.
pub fn tokens_from_json(obj: &JsonObject) -> (tokens: Option<TokenResponse>)
    ensures
        match tokens {
            Some(t) => tokens_in(obj@) == Some(t@),
            None => tokens_in(obj@) is None,
        },
{
    let access_token = match obj.text_of("access_token") {
        Some(access_token) => access_token,
        None => return None,
    };
    let refresh_token = match obj.optional_text_of("refresh_token") {
        Ok(refresh_token) => refresh_token,
        Err(_) => return None,
    };
    let id_token = match obj.text_of("id_token") {
        Some(id_token) => id_token,
        None => return None,
    };
    let expires_in = match obj.int_of("expires_in") {
        Some(expires_in) => expires_in,
        None => return None,
    };
    let token_type = match obj.text_of("token_type") {
        Some(token_type) => token_type,
        None => return None,
    };
    Some(TokenResponse { access_token, refresh_token, id_token, expires_in, token_type })
}

/// Reads the provider's reply to a token request.
pub fn read_token_reply(grant: Grant, reply: &ProviderReply) -> (tokens: AppResult<TokenResponse>)
    ensures
        tokens_result(tokens) == tokens_of_reply(grant, *reply),
{
    match reply {
        ProviderReply::Unreachable { reason } => {
            let mut message = match grant {
                Grant::AuthorizationCode => String::from_str("Failed to exchange code: "),
                Grant::RefreshToken => String::from_str("Failed to refresh token: "),
            };
            message.append(reason.as_str());
            Err(AppError::ExternalService(message))
        },
        ProviderReply::Answered { status, body } => {
            if *status < 200 || *status > 299 {
                let mut message = match grant {
                    Grant::AuthorizationCode => String::from_str("Token exchange failed: "),
                    Grant::RefreshToken => String::from_str("Token refresh failed: "),
                };
                message.append(body.as_str());
                return Err(AppError::Authentication(message));
            }
            let obj = match JsonObject::parse(body.as_str()) {
                Some(obj) => obj,
                None => return Err(
                    AppError::Deserialization(String::from_str("Invalid token response")),
                ),
            };
            match tokens_from_json(&obj) {
                Some(tokens) => Ok(tokens),
                None => Err(AppError::Deserialization(String::from_str("Invalid token response"))),
            }
        },
    }
}

/// Replit authentication client.
#[derive(Debug, Clone, PartialEq, Eq)]
pub struct ReplitAuth {
    pub config: ReplitAuthConfig,
    /// The keys that the provider signs identity tokens with.
    pub keys: Vec<ProviderKey>,
}

impl ReplitAuth {
    /// Create a new Replit auth client. It trusts no key yet, and so no
    /// identity token.
    pub fn new(config: ReplitAuthConfig) -> (client: ReplitAuth)
        ensures
            client.config == config,
            client.keys@.len() == 0,
    {
        ReplitAuth { config, keys: Vec::new() }
    }

    /// Create a client that trusts the identity tokens signed with `keys`.
    pub fn with_keys(config: ReplitAuthConfig, keys: Vec<ProviderKey>) -> (client: ReplitAuth)
        ensures
            client.config == config,
            client.keys == keys,
    {
        ReplitAuth { config, keys }
    }

    /// The form of an authorization-code grant.
    pub open spec fn exchange_fields(&self, code: Seq<char>) -> Seq<(Seq<char>, Seq<char>)> {
        seq![
            ("grant_type"@, "authorization_code"@),
            ("code"@, code),
            ("redirect_uri"@, self.config.callback_url@),
            ("client_id"@, self.config.repl_id@),
        ]
    }

    /// The form of a refresh-token grant.
    pub open spec fn refresh_fields(&self, refresh_token: Seq<char>) -> Seq<
        (Seq<char>, Seq<char>),
    > {
        seq![
            ("grant_type"@, "refresh_token"@),
            ("refresh_token"@, refresh_token),
            ("client_id"@, self.config.repl_id@),
        ]
    }

    /// The request that exchanges an authorization code for tokens.
    pub fn exchange_code_request(&self, code: &str) -> (request: TokenRequest)
        ensures
            request.url@ == self.config.issuer_url@ + "/token"@,
            request.fields() == self.exchange_fields(code@),
    {
        let mut form: Vec<(String, String)> = Vec::new();
        form.push((String::from_str("grant_type"), String::from_str("authorization_code")));
        form.push((String::from_str("code"), String::from_str(code)));
        form.push((String::from_str("redirect_uri"), self.config.callback_url.clone()));
        form.push((String::from_str("client_id"), self.config.repl_id.clone()));
        let request = TokenRequest { url: self.config.token_url(), form };
        assert(request.fields() =~= self.exchange_fields(code@));
        request
    }

    /// Exchange an authorization code for tokens: reads the provider's
    /// reply to the request made by [`ReplitAuth::exchange_code_request`].
    pub fn exchange_code(&self, reply: &ProviderReply) -> (tokens: AppResult<TokenResponse>)
        ensures
            tokens_result(tokens) == tokens_of_reply(Grant::AuthorizationCode, *reply),
    {
        read_token_reply(Grant::AuthorizationCode, reply)
    }

    /// The request that asks for new tokens with a refresh token.
    pub fn refresh_token_request(&self, refresh_token: &str) -> (request: TokenRequest)
        ensures
            request.url@ == self.config.issuer_url@ + "/token"@,
            request.fields() == self.refresh_fields(refresh_token@),
    {
        let mut form: Vec<(String, String)> = Vec::new();
        form.push((String::from_str("grant_type"), String::from_str("refresh_token")));
        form.push((String::from_str("refresh_token"), String::from_str(refresh_token)));
        form.push((String::from_str("client_id"), self.config.repl_id.clone()));
        let request = TokenRequest { url: self.config.token_url(), form };
        assert(request.fields() =~= self.refresh_fields(refresh_token@));
        request
    }

    /// Refresh an access token: reads the provider's reply to the request
    /// made by [`ReplitAuth::refresh_token_request`].
    pub fn refresh_token(&self, reply: &ProviderReply) -> (tokens: AppResult<TokenResponse>)
        ensures
            tokens_result(tokens) == tokens_of_reply(Grant::RefreshToken, *reply),
    {
        read_token_reply(Grant::RefreshToken, reply)
    }

    /// Decode an ID token and check that it has not expired, by the clock
    /// of this machine. The signature is not looked at.
    pub fn decode_id_token(&self, id_token: &str) -> (claims: AppResult<UserClaims>)
        ensures
            exists|now: i64| claims_result(claims) == #[trigger] id_token_claims(id_token@, now),
            claims matches Err(e) ==> e.kind() == ErrorKind::Authentication,
    {
        let now = unix_now();
        decode_id_token_at(id_token, now)
    }

    /// Whether one of the provider's keys signs `id_token`.
    pub fn signature_verified(&self, id_token: &str) -> (yes: bool)
        ensures
            yes == signed_by_one_of(self.keys@, id_token@),
    {
        let mut i: usize = 0;
        while i < self.keys.len()
            invariant
                i <= self.keys@.len(),
                forall|j: int| 0 <= j < i ==> !(#[trigger] self.keys@[j]).signs(id_token@),
            decreases self.keys@.len() - i,
        {
            if self.keys[i].verifies(id_token) {
                return true;
            }
            i += 1;
        }
        false
    }

    /// What an identity token is worth at the moment `now`: its claims,
    /// where one of the provider's keys signs it and it has not expired.
    pub open spec fn verified_claims(&self, id_token: Seq<char>, now: i64) -> Result<
        UserClaimsView,
        AppErrorView,
    > {
        if signed_by_one_of(self.keys@, id_token) {
            id_token_claims(id_token, now)
        } else {
            Err(auth_failure("ID token signature could not be verified"@))
        }
    }

    /// Verifies the signature of an ID token and decodes it at the moment `now`.
    pub fn verify_id_token_at(&self, id_token: &str, now: i64) -> (claims: AppResult<UserClaims>)
        ensures
            claims_result(claims) == self.verified_claims(id_token@, now),
            claims matches Ok(c) ==> c.exp >= now && signed_by_one_of(self.keys@, id_token@),
            claims matches Err(e) ==> e.kind() == ErrorKind::Authentication,
    {
        if !self.signature_verified(id_token) {
            return Err(
                AppError::Authentication(
                    String::from_str("ID token signature could not be verified"),
                ),
            );
        }
        decode_id_token_at(id_token, now)
    }

    /// Convert claims to a user object for database storage.
    pub fn claims_to_user(&self, claims: &UserClaims) -> (user: UpsertUser)
        ensures
            user@ == user_of_claims(claims@),
    {
        UpsertUser {
            id: claims.sub.clone(),
            email: clone_optional(&claims.email),
            first_name: clone_optional(&claims.first_name),
            last_name: clone_optional(&claims.last_name),
            profile_image_url: clone_optional(&claims.profile_image_url),
        }
    }
}

/// A token that has expired is never decoded, whoever signed it: where
/// decoding at the moment `now` gives claims, they do not expire before
/// `now`, and this holds with and without the check of the signature.
pub proof fn law_expired_token_never_decodes(auth: ReplitAuth, token: Seq<char>, now: i64)
    ensures
        id_token_claims(token, now) matches Ok(claims) ==> claims.exp >= now,
        auth.verified_claims(token, now) matches Ok(claims) ==> claims.exp >= now
            && signed_by_one_of(auth.keys@, token),
        forall|later: i64|
            id_token_claims(token, now) matches Ok(claims) && claims.exp < later ==> (
            #[trigger] id_token_claims(token, later)) is Err,
{
}

/// What claims say of their user.
pub open spec fn user_of_claims(claims: UserClaimsView) -> UpsertUserView {
    UpsertUserView {
        id: claims.sub,
        email: claims.email,
        first_name: claims.first_name,
        last_name: claims.last_name,
        profile_image_url: claims.profile_image_url,
    }
}

/// The members that stand for claims, in the order in which they are written.
pub open spec fn claims_entries(claims: UserClaimsView) -> Seq<(Seq<char>, JsonFieldView)> {
    seq![
        ("sub"@, JsonFieldView::Text(claims.sub)),
        ("email"@, text_or_null(claims.email)),
        ("first_name"@, text_or_null(claims.first_name)),
        ("last_name"@, text_or_null(claims.last_name)),
        ("profile_image_url"@, text_or_null(claims.profile_image_url)),
        ("iat"@, JsonFieldView::Number(Some(claims.iat))),
        ("exp"@, JsonFieldView::Number(Some(claims.exp))),
    ]
}

/// The first segment of an unsigned token: Base64url for
/// `{"alg":"none","typ":"JWT"}`.
pub open spec fn unsigned_header() -> Seq<char> {
    "eyJhbGciOiJub25lIiwidHlwIjoiSldUIn0"@
}

/// The unsigned token that carries `claims`: the header, the claims as
/// Base64url of their JSON text, and an empty signature.
pub open spec fn unsigned_id_token(claims: UserClaimsView) -> Seq<char> {
    unsigned_header() + seq!['.'] + base64url_encoded(
        encode_utf8(json_object_rendered(claims_entries(claims))),
    ) + seq!['.']
}

/// Whether `name` is the name of one of the claims.
pub open spec fn is_claim_name(name: Seq<char>) -> bool {
    name == "sub"@ || name == "email"@ || name == "first_name"@ || name == "last_name"@ || name
        == "profile_image_url"@ || name == "iat"@ || name == "exp"@
}

/// Adds the claims to a JSON object, replacing members of the same names.
/// Absent claims are written as `null`.
pub fn put_claims(obj: &mut JsonObject, claims: &UserClaims)
    ensures
        final(obj).entries() == old(obj).entries() + claims_entries(claims@),
        all_exact(old(obj).entries()) ==> all_exact(final(obj).entries()),
        claims_in(final(obj)@) == Some(claims@),
        forall|name: Seq<char>|
            !is_claim_name(name) ==> final(obj)@.contains_key(name) == old(obj)@.contains_key(
                name,
            ) && final(obj)@[name] == old(obj)@[name],
{
    obj.put_text("sub", claims.sub.as_str());
    obj.put_optional_text("email", &claims.email);
    obj.put_optional_text("first_name", &claims.first_name);
    obj.put_optional_text("last_name", &claims.last_name);
    obj.put_optional_text("profile_image_url", &claims.profile_image_url);
    obj.put_int("iat", claims.iat);
    obj.put_int("exp", claims.exp);
    proof {
        reveal_strlit("sub");
        reveal_strlit("email");
        reveal_strlit("first_name");
        reveal_strlit("last_name");
        reveal_strlit("profile_image_url");
        reveal_strlit("iat");
        reveal_strlit("exp");
        assert(obj.entries() =~= old(obj).entries() + claims_entries(claims@));
        assert("sub"@[0] == 's');
        assert("email"@[1] == 'm');
        assert("first_name"@[0] == 'f');
        assert("last_name"@[0] == 'l');
        assert("profile_image_url"@[0] == 'p');
        assert("iat"@[0] == 'i');
        assert("exp"@[1] == 'x');
    }
}

/// Writes claims as a JSON object. Absent claims are written as `null`.
pub fn claims_to_json(claims: &UserClaims) -> (obj: JsonObject)
    ensures
        obj.entries() == claims_entries(claims@),
        all_exact(obj.entries()),
        claims_in(obj@) == Some(claims@),
{
    let mut obj = JsonObject::new();
    put_claims(&mut obj, claims);
    assert(obj.entries() =~= claims_entries(claims@));
    obj
}

/// Writes claims as an unsigned ID token, for providers that stand in for
/// the real one. `None` where the claims are too long for a token on this
/// machine.
///
/// Decoding the token gives the claims back until they expire, and fails
/// from then on.
pub fn encode_as_id_token(claims: &UserClaims) -> (token: Option<String>)
    ensures
        token is Some <==> base64_fits(
            encode_utf8(json_object_rendered(claims_entries(claims@))).len(),
        ),
        token matches Some(t) ==> {
            &&& t@ == unsigned_id_token(claims@)
            &&& forall|now: i64|
                now <= claims.exp ==> #[trigger] id_token_claims(t@, now) == Ok::<
                    UserClaimsView,
                    AppErrorView,
                >(claims@)
            &&& forall|now: i64| now > claims.exp ==> (#[trigger] id_token_claims(t@, now)) is Err
        },
{
    let obj = claims_to_json(claims);
    let payload = obj.render();
    let bytes = payload.as_str().as_bytes();
    if bytes.len() / 3 > (usize::MAX - 3) / 4 {
        return None;
    }
    let segment = base64url_encode(bytes);
    let mut token = String::from_str("eyJhbGciOiJub25lIiwidHlwIjoiSldUIn0");
    token.append(".");
    token.append(segment.as_str());
    token.append(".");
    proof {
        reveal_strlit(".");
        reveal_strlit("eyJhbGciOiJub25lIiwidHlwIjoiSldUIn0");
        let header = unsigned_header();
        let empty = Seq::<char>::empty();
        assert("."@ =~= seq!['.']);
        assert(token@ =~= header + seq!['.'] + (segment@ + seq!['.'] + empty));
        assert(token@ =~= unsigned_id_token(claims@));
        assert forall|i: int| 0 <= i < header.len() implies header[i] != '.' by {}
        assert forall|i: int| 0 <= i < segment@.len() implies segment@[i] != '.' by {
            assert(is_base64url_char(segment@[i]));
        }
        lemma_split_first(header, segment@ + seq!['.'] + empty, '.');
        lemma_split_first(segment@, empty, '.');
        lemma_split_whole(empty, '.');
        let segments = split(token@, '.');
        assert(segments =~= seq![header, segment@, empty]);
        vstd::utf8::encode_utf8_valid_utf8(payload@);
        vstd::utf8::encode_utf8_decode_utf8(payload@);
        assert(segment_text(segments[1]) == Ok::<Seq<char>, AppErrorView>(payload@));
    }
    Some(token)
}

} // verus!
