use vstd::prelude::*;

use crate::encoding::{percent_encode, percent_encoded};
use crate::scope::{granted_uris, wire_of, DynSingleScope, Scope, SpaceDelimitedScope};
use crate::secret::WebClientSecret;
use crate::text::{join_sep, join_with};

pub mod calendar;
mod misc;

pub use misc::{AuthorizationCode, Bearer, RefreshToken};

verus! {

/// `name=value`, the value percent-encoded.
pub open spec fn form_field(name: Seq<char>, value: Seq<char>) -> Seq<char> {
    name + "="@ + percent_encoded(value)
}

/// The form body of a code exchange, fields in a fixed order.
pub open spec fn exchange_body(
    client_id: Seq<char>,
    client_secret: Seq<char>,
    code: Seq<char>,
    redirect_uri: Seq<char>,
) -> Seq<char> {
    join_sep(
        seq![
            form_field("client_id"@, client_id),
            form_field("client_secret"@, client_secret),
            form_field("code"@, code),
            form_field("grant_type"@, "authorization_code"@),
            form_field("redirect_uri"@, redirect_uri),
        ],
        "&"@,
    )
}

/// The form body of a token refresh, fields in a fixed order.
pub open spec fn refresh_body(
    client_id: Seq<char>,
    client_secret: Seq<char>,
    refresh_token: Seq<char>,
) -> Seq<char> {
    join_sep(
        seq![
            form_field("client_id"@, client_id),
            form_field("client_secret"@, client_secret),
            form_field("refresh_token"@, refresh_token),
            "grant_type=refresh_token"@,
        ],
        "&"@,
    )
}

/// `name=value` with the value percent-encoded.
pub fn encode_field(name: &str, value: &str) -> (r: String)
    ensures
        r@ == form_field(name@, value@),
{
    let mut r = String::new();
    r.append(name);
    r.append("=");
    let encoded = percent_encode(value);
    r.append(encoded.as_str());
    assert(r@ =~= form_field(name@, value@));
    r
}

/// The body of a code-exchange request.
pub struct TokenRequest {
    pub client_id: String,
    pub client_secret: String,
    pub code: String,
    pub grant_type: AuthorizationCode,
    pub redirect_uri: String,
}

impl TokenRequest {
    /// The request as an `application/x-www-form-urlencoded` body.
    pub fn urlencoded(self) -> (r: String)
        ensures
            r@ == exchange_body(
                self.client_id@,
                self.client_secret@,
                self.code@,
                self.redirect_uri@,
            ),
    {
        let mut fields: Vec<String> = Vec::new();
        fields.push(encode_field("client_id", self.client_id.as_str()));
        fields.push(encode_field("client_secret", self.client_secret.as_str()));
        fields.push(encode_field("code", self.code.as_str()));
        fields.push(encode_field("grant_type", self.grant_type.as_str()));
        fields.push(encode_field("redirect_uri", self.redirect_uri.as_str()));
        let r = join_with(&fields, "&");
        assert(fields@.map_values(|p: String| p@) =~= seq![
            form_field("client_id"@, self.client_id@),
            form_field("client_secret"@, self.client_secret@),
            form_field("code"@, self.code@),
            form_field("grant_type"@, "authorization_code"@),
            form_field("redirect_uri"@, self.redirect_uri@),
        ]);
        r
    }
}

/// The provider's token answer was not one this client accepts.
#[derive(Debug)]
pub enum TokenDecodeError {
    /// `token_type` was not `Bearer`; the value found.
    UnsupportedTokenType(String),
}

/// A token the provider granted.
#[derive(Debug)]
pub struct Token {
    pub access_token: String,
    /// Lifetime in seconds.
    pub expires_in: u32,
    pub refresh_token: Option<String>,
    /// The scopes actually granted.
    pub scope: SpaceDelimitedScope,
    pub token_type: Bearer,
}

pub open spec fn opt_string_view(o: Option<String>) -> Option<Seq<char>> {
    match o {
        Some(s) => Some(s@),
        None => None,
    }
}

impl Token {
    pub open spec fn wf(&self) -> bool {
        self.scope.wf()
    }

    /// A token from the fields of the provider's answer. The token type must
    /// be `Bearer`; the scope string is read leniently, so a granted scope
    /// outside the catalog is kept rather than refused.
    pub fn from_response(
        access_token: String,
        expires_in: u32,
        refresh_token: Option<String>,
        scope: &str,
        token_type: &str,
    ) -> (r: Result<Token, TokenDecodeError>)
        ensures
            r is Ok <==> token_type@ == "Bearer"@,
            r matches Ok(t) ==> {
                &&& t.wf()
                &&& t.access_token == access_token
                &&& t.expires_in == expires_in
                &&& t.refresh_token == refresh_token
                &&& t.scope.uris() == granted_uris(scope@)
            },
            r matches Err(TokenDecodeError::UnsupportedTokenType(found)) ==> found@ == token_type@,
    {
        match Bearer::parse(token_type) {
            Some(token_type) => Ok(
                Token {
                    access_token,
                    expires_in,
                    refresh_token,
                    scope: SpaceDelimitedScope::parse_granted(scope),
                    token_type,
                },
            ),
            None => Err(TokenDecodeError::UnsupportedTokenType(token_type.to_string())),
        }
    }

    /// Merges a refresh answer into this token: every field comes from
    /// `other`, except that when `other` has no refresh token this token's
    /// refresh token is kept.
    pub fn refresh_with(self, other: Token) -> (r: Token)
        ensures
            r.access_token == other.access_token,
            r.expires_in == other.expires_in,
            r.scope == other.scope,
            r.token_type == other.token_type,
            r.refresh_token == merged_refresh_token(self.refresh_token, other.refresh_token),
    {
        let Token { refresh_token, .. } = self;
        let Token { access_token, expires_in, refresh_token: new_refresh_token, scope, token_type } =
            other;
        let refresh_token = match new_refresh_token {
            Some(t) => Some(t),
            None => refresh_token,
        };
        Token { access_token, expires_in, refresh_token, scope, token_type }
    }
}

impl Clone for Token {
    fn clone(&self) -> (r: Self)
        ensures
            r.access_token == self.access_token,
            r.expires_in == self.expires_in,
            r.refresh_token == self.refresh_token,
            r.scope@ == self.scope@,
            r.token_type == self.token_type,
    {
        let refresh_token = match &self.refresh_token {
            Some(t) => Some(t.clone()),
            None => None,
        };
        Token {
            access_token: self.access_token.clone(),
            expires_in: self.expires_in,
            refresh_token,
            scope: self.scope.duplicate(),
            token_type: self.token_type,
        }
    }
}

/// The refresh token after a refresh: the answer's if it has one, else the
/// one held before.
pub open spec fn merged_refresh_token(before: Option<String>, answer: Option<String>) -> Option<
    String,
> {
    if answer is Some {
        answer
    } else {
        before
    }
}

/// The browser-facing authorization URL.
pub open spec fn authorization_url(
    auth_uri: Seq<char>,
    client_id: Seq<char>,
    redirect_uri: Seq<char>,
    scope_wire: Seq<char>,
) -> Seq<char> {
    auth_uri + "?"@ + join_sep(
        seq![
            form_field("client_id"@, client_id),
            form_field("redirect_uri"@, redirect_uri),
            form_field("scope"@, scope_wire),
            "response_type=code"@,
            "access_type=offline"@,
        ],
        "&"@,
    )
}

/// Where the provider sends the user back, and the scopes to ask for.
#[derive(Debug)]
pub struct ClientConfig {
    pub redirect_uri: String,
    pub scope: SpaceDelimitedScope,
}

impl Clone for ClientConfig {
    fn clone(&self) -> (r: Self)
        ensures
            r.redirect_uri == self.redirect_uri,
            r.scope@ == self.scope@,
    {
        ClientConfig { redirect_uri: self.redirect_uri.clone(), scope: self.scope.duplicate() }
    }
}

/// A required builder field was never set.
#[derive(Debug, Clone, Copy, PartialEq, Eq)]
pub enum ConfigurationError {
    /// The name of the first missing field.
    MissingField(&'static str),
}

/// The token lacks every scope that would allow a request; `missing` names
/// them.
#[derive(Debug)]
pub struct InsufficientScopeError {
    pub missing: Vec<DynSingleScope>,
}

impl InsufficientScopeError {
    pub fn new(missing: Vec<DynSingleScope>) -> (r: InsufficientScopeError)
        ensures
            r.missing == missing,
    {
        InsufficientScopeError { missing }
    }
}

/// A refresh was asked of a token that holds no refresh token.
#[derive(Debug, Clone, Copy, PartialEq, Eq, Structural)]
pub enum RefreshError {
    NoRefreshToken,
}

/// A client configured but not yet authorized.
#[derive(Debug)]
pub struct UnauthorizedClient {
    secret: WebClientSecret,
    config: ClientConfig,
}

impl UnauthorizedClient {
    pub closed spec fn spec_secret(&self) -> WebClientSecret {
        self.secret
    }

    pub closed spec fn spec_config(&self) -> ClientConfig {
        self.config
    }

    pub fn new(secret: WebClientSecret, config: ClientConfig) -> (r: UnauthorizedClient)
        ensures
            r.spec_secret() == secret,
            r.spec_config() == config,
    {
        UnauthorizedClient { secret, config }
    }

    /// A builder with nothing set.
    pub fn builder() -> (r: UnauthorizedClientBuilder)
        ensures
            r.spec_redirect_uri() is None,
            r.spec_secret() is None,
            r.wf(),
            r.spec_scope().uris() == Set::<Seq<char>>::empty(),
    {
        UnauthorizedClientBuilder::new()
    }

    pub fn secret(&self) -> (r: &WebClientSecret)
        ensures
            *r == self.spec_secret(),
    {
        &self.secret
    }

    pub fn config(&self) -> (r: &ClientConfig)
        ensures
            *r == self.spec_config(),
    {
        &self.config
    }

    /// `{auth_uri}?client_id=..&redirect_uri=..&scope=..&response_type=code&access_type=offline`,
    /// with the client id, the redirect URI and the scope wire string
    /// percent-encoded. No network call.
    pub fn generate_url(&self) -> (r: String)
        ensures
            r@ == authorization_url(
                self.spec_secret().auth_uri@,
                self.spec_secret().client_id@,
                self.spec_config().redirect_uri@,
                wire_of(self.spec_config().scope@),
            ),
    {
        let wire = self.config.scope.to_wire_string();
        let mut fields: Vec<String> = Vec::new();
        fields.push(encode_field("client_id", self.secret.client_id.as_str()));
        fields.push(encode_field("redirect_uri", self.config.redirect_uri.as_str()));
        fields.push(encode_field("scope", wire.as_str()));
        fields.push("response_type=code".to_string());
        fields.push("access_type=offline".to_string());
        let query = join_with(&fields, "&");
        assert(fields@.map_values(|p: String| p@) =~= seq![
            form_field("client_id"@, self.secret.client_id@),
            form_field("redirect_uri"@, self.config.redirect_uri@),
            form_field("scope"@, wire@),
            "response_type=code"@,
            "access_type=offline"@,
        ]);
        let mut r = self.secret.auth_uri.clone();
        r.append("?");
        r.append(query.as_str());
        r
    }

    /// The code-exchange request for `code`.
    pub fn token_request(&self, code: &str) -> (r: TokenRequest)
        ensures
            r.client_id == self.spec_secret().client_id,
            r.client_secret == self.spec_secret().client_secret,
            r.code@ == code@,
            r.redirect_uri == self.spec_config().redirect_uri,
    {
        TokenRequest {
            client_id: self.secret.client_id.clone(),
            client_secret: self.secret.client_secret.clone(),
            code: code.to_string(),
            grant_type: AuthorizationCode::new(),
            redirect_uri: self.config.redirect_uri.clone(),
        }
    }

    /// The authorized client holding this client's secret and `token`.
    pub fn autorize_with_token(&self, token: Token) -> (r: AuthorizedClient)
        ensures
            r.spec_secret() == self.spec_secret(),
            r.spec_token() == token,
    {
        AuthorizedClient::new(self.secret.clone(), token)
    }
}

/// Collects what an [`UnauthorizedClient`] needs; the redirect URI and the
/// secret are required, the scope set starts empty.
#[derive(Debug)]
pub struct UnauthorizedClientBuilder {
    redirect_uri: Option<String>,
    scope: SpaceDelimitedScope,
    secret: Option<WebClientSecret>,
}

impl UnauthorizedClientBuilder {
    pub closed spec fn spec_redirect_uri(&self) -> Option<String> {
        self.redirect_uri
    }

    pub closed spec fn spec_scope(&self) -> SpaceDelimitedScope {
        self.scope
    }

    pub closed spec fn spec_secret(&self) -> Option<WebClientSecret> {
        self.secret
    }

    pub open spec fn wf(&self) -> bool {
        self.spec_scope().wf()
    }

    pub fn new() -> (r: UnauthorizedClientBuilder)
        ensures
            r.spec_redirect_uri() is None,
            r.spec_secret() is None,
            r.wf(),
            r.spec_scope().uris() == Set::<Seq<char>>::empty(),
    {
        let scope = SpaceDelimitedScope::new();
        assert(scope.uris() =~= Set::<Seq<char>>::empty());
        UnauthorizedClientBuilder { redirect_uri: None, scope, secret: None }
    }

    pub fn redirect_uri(self, uri: &str) -> (r: UnauthorizedClientBuilder)
        ensures
            opt_string_view(r.spec_redirect_uri()) == Some(uri@),
            r.spec_scope() == self.spec_scope(),
            r.spec_secret() == self.spec_secret(),
    {
        UnauthorizedClientBuilder { redirect_uri: Some(uri.to_string()), ..self }
    }

    /// Adds the scopes of `s` to those asked for.
    pub fn add_scope<S: Scope>(self, s: S) -> (r: UnauthorizedClientBuilder)
        requires
            self.wf(),
            s.scope_wf(),
        ensures
            r.wf(),
            r.spec_scope().uris() == self.spec_scope().uris().union(s.scope_set()),
            r.spec_redirect_uri() == self.spec_redirect_uri(),
            r.spec_secret() == self.spec_secret(),
    {
        let UnauthorizedClientBuilder { redirect_uri, mut scope, secret } = self;
        let more = s.space_delimited();
        scope.extend(&more);
        UnauthorizedClientBuilder { redirect_uri, scope, secret }
    }

    /// Replaces the scopes asked for by those of `s`.
    pub fn scope<S: Scope>(self, s: S) -> (r: UnauthorizedClientBuilder)
        requires
            s.scope_wf(),
        ensures
            r.wf(),
            r.spec_scope().uris() == s.scope_set(),
            r.spec_redirect_uri() == self.spec_redirect_uri(),
            r.spec_secret() == self.spec_secret(),
    {
        let scope = s.space_delimited();
        UnauthorizedClientBuilder { scope, ..self }
    }

    pub fn secret(self, secret: &WebClientSecret) -> (r: UnauthorizedClientBuilder)
        ensures
            r.spec_secret() == Some(*secret),
            r.spec_redirect_uri() == self.spec_redirect_uri(),
            r.spec_scope() == self.spec_scope(),
    {
        UnauthorizedClientBuilder { secret: Some(secret.clone()), ..self }
    }

    /// The client, or the first missing field: `redirect_uri`, then `secret`.
    pub fn build(self) -> (r: Result<UnauthorizedClient, ConfigurationError>)
        ensures
            r is Ok <==> self.spec_redirect_uri() is Some && self.spec_secret() is Some,
            r matches Ok(c) ==> {
                &&& Some(c.spec_secret()) == self.spec_secret()
                &&& Some(c.spec_config().redirect_uri) == self.spec_redirect_uri()
                &&& c.spec_config().scope == self.spec_scope()
            },
            r matches Err(ConfigurationError::MissingField(f)) ==> f@ == if self.spec_redirect_uri() is None {
                "redirect_uri"@
            } else {
                "secret"@
            },
    {
        let UnauthorizedClientBuilder { redirect_uri, scope, secret } = self;
        let redirect_uri = match redirect_uri {
            Some(u) => u,
            None => return Err(ConfigurationError::MissingField("redirect_uri")),
        };
        let secret = match secret {
            Some(s) => s,
            None => return Err(ConfigurationError::MissingField("secret")),
        };
        Ok(UnauthorizedClient::new(secret, ClientConfig { redirect_uri, scope }))
    }
}

impl Default for UnauthorizedClientBuilder {
    fn default() -> (r: UnauthorizedClientBuilder)
        ensures
            r.spec_redirect_uri() is None,
            r.spec_secret() is None,
            r.wf(),
            r.spec_scope().uris() == Set::<Seq<char>>::empty(),
    {
        UnauthorizedClientBuilder::new()
    }
}

/// A client holding a granted token.
#[derive(Debug)]
pub struct AuthorizedClient {
    secret: WebClientSecret,
    token: Token,
}

impl AuthorizedClient {
    pub const BASE_URL: &'static str = "https://www.googleapis.com";

    pub closed spec fn spec_secret(&self) -> WebClientSecret {
        self.secret
    }

    pub closed spec fn spec_token(&self) -> Token {
        self.token
    }

    pub fn new(secret: WebClientSecret, token: Token) -> (r: AuthorizedClient)
        ensures
            r.spec_secret() == secret,
            r.spec_token() == token,
    {
        AuthorizedClient { secret, token }
    }

    pub fn token(&self) -> (r: &Token)
        ensures
            *r == self.spec_token(),
    {
        &self.token
    }

    pub fn secret(&self) -> (r: &WebClientSecret)
        ensures
            *r == self.spec_secret(),
    {
        &self.secret
    }

    /// The full URL of an API path: the API's base URL, then `uri`.
    pub fn request_url(&self, uri: &str) -> (r: String)
        ensures
            r@ == "https://www.googleapis.com"@ + uri@,
    {
        let mut r = "https://www.googleapis.com".to_string();
        r.append(uri);
        r
    }

    /// The value of the `Authorization` header of an API request:
    /// `Bearer {access_token}`.
    pub fn authorization_header(&self) -> (r: String)
        ensures
            r@ == "Bearer "@ + self.spec_token().access_token@,
    {
        let mut r = "Bearer ".to_string();
        r.append(self.token.access_token.as_str());
        r
    }

    /// The form body of the refresh request, or, without a refresh token,
    /// the error, before any network call.
    pub fn refresh_request(&self) -> (r: Result<String, RefreshError>)
        ensures
            r is Ok <==> self.spec_token().refresh_token is Some,
            r matches Ok(body) ==> body@ == refresh_body(
                self.spec_secret().client_id@,
                self.spec_secret().client_secret@,
                self.spec_token().refresh_token->Some_0@,
            ),
            r matches Err(e) ==> e == RefreshError::NoRefreshToken,
    {
        let refresh_token = match &self.token.refresh_token {
            Some(t) => t,
            None => return Err(RefreshError::NoRefreshToken),
        };
        let mut fields: Vec<String> = Vec::new();
        fields.push(encode_field("client_id", self.secret.client_id.as_str()));
        fields.push(encode_field("client_secret", self.secret.client_secret.as_str()));
        fields.push(encode_field("refresh_token", refresh_token.as_str()));
        fields.push("grant_type=refresh_token".to_string());
        let body = join_with(&fields, "&");
        assert(fields@.map_values(|p: String| p@) =~= seq![
            form_field("client_id"@, self.secret.client_id@),
            form_field("client_secret"@, self.secret.client_secret@),
            form_field("refresh_token"@, refresh_token@),
            "grant_type=refresh_token"@,
        ]);
        Ok(body)
    }

    /// The client after a successful refresh: the same secret, and the
    /// answer merged into the token by [`Token::refresh_with`].
    pub fn refreshed(self, answer: Token) -> (r: AuthorizedClient)
        ensures
            r.spec_secret() == self.spec_secret(),
            r.spec_token().access_token == answer.access_token,
            r.spec_token().expires_in == answer.expires_in,
            r.spec_token().scope == answer.scope,
            r.spec_token().token_type == answer.token_type,
            r.spec_token().refresh_token == merged_refresh_token(
                self.spec_token().refresh_token,
                answer.refresh_token,
            ),
    {
        let AuthorizedClient { secret, token } = self;
        AuthorizedClient { secret, token: token.refresh_with(answer) }
    }
}

} // verus!
