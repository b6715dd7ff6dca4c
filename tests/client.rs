use google_oauth::client::calendar::{trim, ParameterMinAccessRole, Parameters};
use google_oauth::client::{
    encode_field, AuthorizationCode, Bearer, ClientConfig, ConfigurationError, RefreshError,
    RefreshToken, Token, TokenDecodeError, TokenRequest, UnauthorizedClientBuilder,
};
use google_oauth::scope::{DynSingleScope, SpaceDelimitedScope};
use google_oauth::{AuthorizedClient, UnauthorizedClient, WebClientSecret};

fn web(client_id: &str) -> WebClientSecret {
    WebClientSecret {
        client_id: client_id.to_string(),
        project_id: "project".to_string(),
        auth_uri: "https://accounts.google.com/o/oauth2/auth".to_string(),
        token_uri: "https://oauth2.googleapis.com/token".to_string(),
        auth_provider_x509_cert_url: "https://www.googleapis.com/oauth2/v1/certs".to_string(),
        client_secret: "s3cr/t".to_string(),
    }
}

fn token(refresh: Option<&str>, scope: &str) -> Token {
    Token::from_response(
        "at-1".to_string(),
        3599,
        refresh.map(|r| r.to_string()),
        scope,
        "Bearer",
    )
    .unwrap()
}

#[test]
fn refresh_merge_keeps_refresh_token_when_absent() {
    let before = token(Some("R1"), "https://www.googleapis.com/auth/calendar");
    let answer = Token::from_response(
        "at-2".to_string(),
        1800,
        None,
        "https://www.googleapis.com/auth/calendar.readonly",
        "Bearer",
    )
    .unwrap();
    let merged = before.refresh_with(answer);
    assert_eq!(merged.refresh_token.as_deref(), Some("R1"));
    assert_eq!(merged.access_token, "at-2");
    assert_eq!(merged.expires_in, 1800);
    assert_eq!(merged.scope.as_vec(), &vec![DynSingleScope::CalendarReadonly]);
    assert_eq!(merged.token_type, Bearer::new());
}

#[test]
fn refresh_merge_takes_new_refresh_token() {
    let before = token(Some("R1"), "");
    let answer = token(Some("R2"), "");
    assert_eq!(before.refresh_with(answer).refresh_token.as_deref(), Some("R2"));
}

#[test]
fn url_generation_is_encoded() {
    let config = ClientConfig {
        redirect_uri: "http://localhost:8080/cb".to_string(),
        scope: SpaceDelimitedScope::from_scopes(vec![DynSingleScope::Calendar]),
    };
    let client = UnauthorizedClient::new(web("a b"), config);
    let url = client.generate_url();
    assert!(url.contains("client_id=a%20b"));
    assert!(url.contains("redirect_uri=http%3A%2F%2Flocalhost%3A8080%2Fcb"));
    assert!(url.contains("scope=https%3A%2F%2Fwww%2Egoogleapis%2Ecom%2Fauth%2Fcalendar"));
    assert!(url.contains("response_type=code"));
    assert!(url.contains("access_type=offline"));
    assert_eq!(
        url,
        "https://accounts.google.com/o/oauth2/auth?client_id=a%20b\
         &redirect_uri=http%3A%2F%2Flocalhost%3A8080%2Fcb\
         &scope=https%3A%2F%2Fwww%2Egoogleapis%2Ecom%2Fauth%2Fcalendar\
         &response_type=code&access_type=offline"
    );
    assert_eq!(client.generate_url(), url);
}

#[test]
fn url_encodes_multibyte_and_joined_scopes() {
    let client = UnauthorizedClient::builder()
        .redirect_uri("x")
        .add_scope(DynSingleScope::Calendar)
        .add_scope(DynSingleScope::CalendarReadonly)
        .secret(&web("é"))
        .build()
        .unwrap();
    let url = client.generate_url();
    assert!(url.contains("client_id=%C3%A9&"));
    assert!(url.contains(
        "scope=https%3A%2F%2Fwww%2Egoogleapis%2Ecom%2Fauth%2Fcalendar%20\
         https%3A%2F%2Fwww%2Egoogleapis%2Ecom%2Fauth%2Fcalendar%2Ereadonly&"
    ));
}

fn authorized(scope: &str) -> AuthorizedClient {
    AuthorizedClient::new(web("id"), token(Some("R1"), scope))
}

#[test]
fn insufficient_scope_short_circuits() {
    let readonly = authorized("https://www.googleapis.com/auth/calendar.readonly");
    assert!(readonly.calendar().calendar_list().list().is_ok());
    let full = authorized("https://www.googleapis.com/auth/calendar openid");
    assert!(full.calendar().calendar_list().list().is_ok());
    let events = authorized("https://www.googleapis.com/auth/calendar.events");
    let err = events.calendar().calendar_list().list().err().unwrap();
    assert_eq!(
        err.missing,
        vec![DynSingleScope::Calendar, DynSingleScope::CalendarReadonly]
    );
    let none = authorized("");
    assert!(none.calendar().calendar_list().list().is_err());
}

#[test]
fn builder_requires_fields() {
    let missing_uri = UnauthorizedClient::builder().secret(&web("id")).build();
    assert_eq!(
        missing_uri.err().unwrap(),
        ConfigurationError::MissingField("redirect_uri")
    );
    let missing_both = UnauthorizedClientBuilder::default().build();
    assert_eq!(
        missing_both.err().unwrap(),
        ConfigurationError::MissingField("redirect_uri")
    );
    let missing_secret = UnauthorizedClientBuilder::new().redirect_uri("cb").build();
    assert_eq!(
        missing_secret.err().unwrap(),
        ConfigurationError::MissingField("secret")
    );
    let ok = UnauthorizedClient::builder()
        .redirect_uri("cb")
        .secret(&web("id"))
        .build()
        .unwrap();
    assert_eq!(ok.config().scope.len(), 0);
    assert_eq!(ok.config().redirect_uri, "cb");
    assert_eq!(ok.secret(), &web("id"));
}

#[test]
fn builder_scope_replaces_and_add_scope_unions() {
    let client = UnauthorizedClient::builder()
        .add_scope(DynSingleScope::CalendarEvents)
        .scope(DynSingleScope::Calendar)
        .add_scope(DynSingleScope::Calendar)
        .redirect_uri("cb")
        .secret(&web("id"))
        .build()
        .unwrap();
    assert_eq!(client.config().scope.as_vec(), &vec![DynSingleScope::Calendar]);
}

#[test]
fn token_decode_rejects_other_token_types() {
    let r = Token::from_response("a".to_string(), 1, None, "", "MAC");
    match r {
        Err(TokenDecodeError::UnsupportedTokenType(found)) => assert_eq!(found, "MAC"),
        Ok(_) => panic!("accepted a MAC token"),
    }
    assert!(Token::from_response("a".to_string(), 1, None, "", "bearer").is_err());
}

#[test]
fn exchange_body_is_form_encoded() {
    let config = ClientConfig {
        redirect_uri: "http://localhost:8080/cb".to_string(),
        scope: SpaceDelimitedScope::new(),
    };
    let client = UnauthorizedClient::new(web("id"), config);
    let body = client.token_request("4/0A b").urlencoded();
    assert_eq!(
        body,
        "client_id=id&client_secret=s3cr%2Ft&code=4%2F0A%20b\
         &grant_type=authorization%5Fcode&redirect_uri=http%3A%2F%2Flocalhost%3A8080%2Fcb"
    );
    let direct = TokenRequest {
        client_id: "i".to_string(),
        client_secret: "s".to_string(),
        code: "c".to_string(),
        grant_type: AuthorizationCode::new(),
        redirect_uri: "r".to_string(),
    };
    assert_eq!(
        direct.urlencoded(),
        "client_id=i&client_secret=s&code=c&grant_type=authorization%5Fcode&redirect_uri=r"
    );
}

#[test]
fn refresh_request_needs_refresh_token() {
    let without = AuthorizedClient::new(web("id"), token(None, ""));
    assert_eq!(without.refresh_request().err(), Some(RefreshError::NoRefreshToken));
    let with = AuthorizedClient::new(web("id"), token(Some("1//r+t"), ""));
    assert_eq!(
        with.refresh_request().unwrap(),
        "client_id=id&client_secret=s3cr%2Ft&refresh_token=1%2F%2Fr%2Bt&grant_type=refresh_token"
    );
}

#[test]
fn refreshed_client_merges_token() {
    let client = AuthorizedClient::new(web("id"), token(Some("R1"), ""));
    let answer = Token::from_response("new".to_string(), 10, None, "", "Bearer").unwrap();
    let client = client.refreshed(answer);
    assert_eq!(client.token().access_token, "new");
    assert_eq!(client.token().refresh_token.as_deref(), Some("R1"));
    assert_eq!(client.secret(), &web("id"));
}

#[test]
fn authorization_header_and_url() {
    let client = authorized("");
    assert_eq!(client.authorization_header(), "Bearer at-1");
    assert_eq!(
        client.request_url("/calendar/v3/users/me/calendarList"),
        "https://www.googleapis.com/calendar/v3/users/me/calendarList"
    );
    let unauthorized = UnauthorizedClient::new(
        web("id"),
        ClientConfig {
            redirect_uri: "cb".to_string(),
            scope: SpaceDelimitedScope::new(),
        },
    );
    let again = unauthorized.autorize_with_token(token(None, ""));
    assert_eq!(again.authorization_header(), "Bearer at-1");
}

#[test]
fn calendar_list_query() {
    let client = authorized("https://www.googleapis.com/auth/calendar");
    let request = client.calendar().calendar_list().list().unwrap();
    assert_eq!(
        request.into_url(),
        "https://www.googleapis.com/calendar/v3/users/me/calendarList"
    );
    let request = client
        .calendar()
        .calendar_list()
        .list()
        .unwrap()
        .param_max_results(250)
        .param_min_access_role(ParameterMinAccessRole::FreeBusyReader)
        .param_page_token("p/1")
        .param_show_deleted(true)
        .param_show_hidden(false)
        .param_sync_token("s=2");
    assert_eq!(
        request.into_url(),
        "https://www.googleapis.com/calendar/v3/users/me/calendarList\
         ?maxResults=250&minAccessRole=freeBusyReader&pageToken=p%2F1\
         &showDeleted=true&showHidden=false&syncToken=s%3D2"
    );
    let request = client
        .calendar()
        .calendar_list()
        .list()
        .unwrap()
        .replace_parameters(|p| p.max_results(7).show_hidden(true));
    assert_eq!(request.parameters().max_results, Some(7));
    assert_eq!(request.parameters().show_deleted, None);
    assert_eq!(
        request.into_url(),
        "https://www.googleapis.com/calendar/v3/users/me/calendarList\
         ?maxResults=7&showHidden=true"
    );
}

#[test]
fn parameters_query_string() {
    assert_eq!(Parameters::new().into_query(), "");
    assert_eq!(
        Parameters::new().max_results(0).into_query(),
        "maxResults=0"
    );
    assert_eq!(
        Parameters::new().show_deleted(false).into_query(),
        "showDeleted=false"
    );
    assert_eq!(
        Parameters::new()
            .max_results(42)
            .min_access_role(ParameterMinAccessRole::Writer)
            .into_query(),
        "maxResults=42&minAccessRole=writer"
    );
    assert_eq!(
        Parameters::new().sync_token("a b").page_token("é").into_query(),
        "pageToken=%C3%A9&syncToken=a%20b"
    );
}

#[test]
fn min_access_role_names() {
    assert_eq!(ParameterMinAccessRole::Owner.as_str(), "owner");
    assert_eq!(ParameterMinAccessRole::Reader.as_str(), "reader");
    assert_eq!(
        ParameterMinAccessRole::parse("  freeBusyReader\n"),
        Some(ParameterMinAccessRole::FreeBusyReader)
    );
    assert_eq!(ParameterMinAccessRole::parse(" owner "), Some(ParameterMinAccessRole::Owner));
    assert_eq!(ParameterMinAccessRole::parse("Owner"), None);
    assert_eq!(ParameterMinAccessRole::from_name(" owner "), None);
}

#[test]
fn grant_markers() {
    assert_eq!(AuthorizationCode::new().as_str(), "authorization_code");
    assert_eq!(AuthorizationCode::STR, "authorization_code");
    assert!(AuthorizationCode::parse("authorization_code").is_some());
    assert!(AuthorizationCode::parse("refresh_token").is_none());
    assert_eq!(RefreshToken::new().as_str(), "refresh_token");
    assert!(RefreshToken::parse("refresh_token").is_some());
    assert_eq!(Bearer::new().as_str(), "Bearer");
    assert!(Bearer::parse("Bearer").is_some());
    assert!(Bearer::parse("Bearer ").is_none());
}

#[test]
fn percent_encoding_of_fields() {
    assert_eq!(encode_field("q", "AZaz09"), "q=AZaz09");
    assert_eq!(encode_field("q", "-._~ :/?"), "q=%2D%2E%5F%7E%20%3A%2F%3F");
    assert_eq!(encode_field("q", ""), "q=");
}

#[test]
fn max_results_in_decimal() {
    for (n, text) in [(0u8, "0"), (9, "9"), (10, "10"), (99, "99"), (100, "100"), (255, "255")] {
        assert_eq!(
            Parameters::new().max_results(n).into_query(),
            format!("maxResults={text}")
        );
    }
    assert_eq!(
        google_oauth::client::calendar::decimal_u8(207),
        "207"
    );
}

#[test]
fn trim_removes_unicode_whitespace() {
    assert_eq!(trim("\u{3000}\t reader \u{85}\u{2028}"), "reader");
    assert_eq!(trim(" a b "), "a b");
    assert_eq!(trim(" \n "), "");
    assert_eq!(trim(""), "");
}
