use vstd::prelude::*;

use crate::client::{form_field, encode_field, AuthorizedClient, InsufficientScopeError};
use crate::scope::{calendar_readonly_uri, calendar_uri, DynSingleScope};
use crate::text::{join_sep, join_with, str_eq};

verus! {

/// A view of an authorized client for the calendar API; it borrows the
/// client and copies nothing.
#[derive(Clone, Copy)]
pub struct CalendarClient<'a> {
    inner: &'a AuthorizedClient,
}

impl AuthorizedClient {
    pub fn calendar(&self) -> (r: CalendarClient<'_>)
        ensures
            r.spec_client() == *self,
    {
        CalendarClient { inner: self }
    }
}

impl<'a> CalendarClient<'a> {
    pub const BASE_PATH: &'static str = "/calendar/v3";

    pub closed spec fn spec_client(&self) -> AuthorizedClient {
        *self.inner
    }

    pub fn client(&self) -> (r: &'a AuthorizedClient)
        ensures
            *r == self.spec_client(),
    {
        self.inner
    }

    /// The calendar-list resource.
    pub fn calendar_list(&self) -> (r: Client<'a>)
        ensures
            r.spec_client() == self.spec_client(),
    {
        Client { inner: *self }
    }
}

/// The calendar-list resource of an authorized client.
#[derive(Clone, Copy)]
pub struct Client<'a> {
    inner: CalendarClient<'a>,
}

/// Whether a granted scope set allows listing calendars: it holds
/// `calendar` or `calendar.readonly`.
pub open spec fn allows_calendar_list(granted: Set<Seq<char>>) -> bool {
    granted.contains(calendar_uri()) || granted.contains(calendar_readonly_uri())
}

impl<'a> Client<'a> {
    pub const BASE_PATH: &'static str = "/users/me/calendarList";

    pub closed spec fn spec_client(&self) -> AuthorizedClient {
        self.inner.spec_client()
    }

    /// A list request, if the token's granted scopes allow it; otherwise the
    /// error naming the scopes of which one is needed. This is decided here,
    /// before any network call.
    pub fn list(&self) -> (r: Result<Request<'a>, InsufficientScopeError>)
        ensures
            r is Ok <==> allows_calendar_list(self.spec_client().spec_token().scope.uris()),
            r matches Ok(req) ==> req.spec_client() == self.spec_client() && req.spec_parameters()
                == Parameters::spec_new(),
            r matches Err(e) ==> e.missing@.len() == 2 && e.missing@[0]@ == calendar_uri()
                && e.missing@[1]@ == calendar_readonly_uri(),
    {
        let client = self.inner.client();
        let granted = &client.token().scope;
        if granted.contains(&DynSingleScope::Calendar) || granted.contains(
            &DynSingleScope::CalendarReadonly,
        ) {
            Ok(Request::new(*self))
        } else {
            let mut missing: Vec<DynSingleScope> = Vec::new();
            missing.push(DynSingleScope::Calendar);
            missing.push(DynSingleScope::CalendarReadonly);
            Err(InsufficientScopeError::new(missing))
        }
    }
}

/// The least access role a listed calendar must grant.
#[derive(Debug, Clone, Copy, PartialEq, Eq, Structural, Hash)]
pub enum ParameterMinAccessRole {
    FreeBusyReader,
    Owner,
    Reader,
    Writer,
}

pub open spec fn role_str(r: ParameterMinAccessRole) -> Seq<char> {
    match r {
        ParameterMinAccessRole::FreeBusyReader => "freeBusyReader"@,
        ParameterMinAccessRole::Owner => "owner"@,
        ParameterMinAccessRole::Reader => "reader"@,
        ParameterMinAccessRole::Writer => "writer"@,
    }
}

/// The role whose name is `s`, if any.
pub open spec fn role_named(s: Seq<char>) -> Option<ParameterMinAccessRole> {
    if s == "freeBusyReader"@ {
        Some(ParameterMinAccessRole::FreeBusyReader)
    } else if s == "owner"@ {
        Some(ParameterMinAccessRole::Owner)
    } else if s == "reader"@ {
        Some(ParameterMinAccessRole::Reader)
    } else if s == "writer"@ {
        Some(ParameterMinAccessRole::Writer)
    } else {
        None
    }
}

/// A character of Unicode's `White_Space` property.
pub open spec fn is_unicode_whitespace(c: char) -> bool {
    let u = c as u32;
    (0x9 <= u <= 0xD) || u == 0x20 || u == 0x85 || u == 0xA0 || u == 0x1680 || (0x2000 <= u
        <= 0x200A) || u == 0x2028 || u == 0x2029 || u == 0x202F || u == 0x205F || u == 0x3000
}

/// `s` without its leading whitespace.
pub open spec fn trim_start_ws(s: Seq<char>) -> Seq<char>
    decreases s.len(),
{
    if s.len() > 0 && is_unicode_whitespace(s[0]) {
        trim_start_ws(s.drop_first())
    } else {
        s
    }
}

/// `s` without its trailing whitespace.
pub open spec fn trim_end_ws(s: Seq<char>) -> Seq<char>
    decreases s.len(),
{
    if s.len() > 0 && is_unicode_whitespace(s.last()) {
        trim_end_ws(s.drop_last())
    } else {
        s
    }
}

/// `s` without leading and trailing whitespace.
pub open spec fn trim_ws(s: Seq<char>) -> Seq<char> {
    trim_end_ws(trim_start_ws(s))
}

/// Whether `c` is a character of Unicode's `White_Space` property.
pub fn is_whitespace(c: char) -> (r: bool)
    ensures
        r == is_unicode_whitespace(c),
{
    let u = c as u32;
    (0x9 <= u && u <= 0xD) || u == 0x20 || u == 0x85 || u == 0xA0 || u == 0x1680 || (0x2000 <= u
        && u <= 0x200A) || u == 0x2028 || u == 0x2029 || u == 0x202F || u == 0x205F || u == 0x3000
}

/// `s` without leading and trailing whitespace, as `str::trim` gives it.
pub fn trim(s: &str) -> (r: &str)
    ensures
        r@ == trim_ws(s@),
{
    let n = s.unicode_len();
    let mut i: usize = 0;
    assert(s@.subrange(0, n as int) =~= s@);
    while i < n && is_whitespace(s.get_char(i))
        invariant
            n == s@.len(),
            0 <= i <= n,
            trim_start_ws(s@) == trim_start_ws(s@.subrange(i as int, n as int)),
        decreases n - i,
    {
        assert(s@.subrange(i as int, n as int).drop_first() =~= s@.subrange(i + 1, n as int));
        i = i + 1;
    }
    assert(trim_start_ws(s@) == s@.subrange(i as int, n as int));
    let mut j: usize = n;
    while j > i && is_whitespace(s.get_char(j - 1))
        invariant
            n == s@.len(),
            0 <= i <= j <= n,
            trim_end_ws(s@.subrange(i as int, n as int)) == trim_end_ws(
                s@.subrange(i as int, j as int),
            ),
        decreases j - i,
    {
        assert(s@.subrange(i as int, j as int).drop_last() =~= s@.subrange(i as int, j - 1));
        j = j - 1;
    }
    assert(trim_end_ws(s@.subrange(i as int, j as int)) == s@.subrange(i as int, j as int));
    s.substring_char(i, j)
}

impl ParameterMinAccessRole {
    /// The role whose name is exactly `s`.
    pub fn from_name(s: &str) -> (r: Option<ParameterMinAccessRole>)
        ensures
            r == role_named(s@),
    {
        if str_eq(s, "freeBusyReader") {
            Some(ParameterMinAccessRole::FreeBusyReader)
        } else if str_eq(s, "owner") {
            Some(ParameterMinAccessRole::Owner)
        } else if str_eq(s, "reader") {
            Some(ParameterMinAccessRole::Reader)
        } else if str_eq(s, "writer") {
            Some(ParameterMinAccessRole::Writer)
        } else {
            None
        }
    }

    /// The role named by `s` once surrounding whitespace is trimmed.
    pub fn parse(s: &str) -> (r: Option<ParameterMinAccessRole>)
        ensures
            r == role_named(trim_ws(s@)),
    {
        ParameterMinAccessRole::from_name(trim(s))
    }

    pub fn as_str(&self) -> (r: &'static str)
        ensures
            r@ == role_str(*self),
    {
        match self {
            ParameterMinAccessRole::FreeBusyReader => "freeBusyReader",
            ParameterMinAccessRole::Owner => "owner",
            ParameterMinAccessRole::Reader => "reader",
            ParameterMinAccessRole::Writer => "writer",
        }
    }
}

/// The query parameters of a calendar-list request. Unset optional
/// parameters are left out of the query.
#[derive(Debug)]
pub struct Parameters {
    pub max_results: Option<u8>,
    pub min_access_role: Option<ParameterMinAccessRole>,
    pub page_token: Option<String>,
    pub show_deleted: Option<bool>,
    pub show_hidden: Option<bool>,
    pub sync_token: Option<String>,
}

pub open spec fn digit_char(d: nat) -> char {
    if d == 0 {
        '0'
    } else if d == 1 {
        '1'
    } else if d == 2 {
        '2'
    } else if d == 3 {
        '3'
    } else if d == 4 {
        '4'
    } else if d == 5 {
        '5'
    } else if d == 6 {
        '6'
    } else if d == 7 {
        '7'
    } else if d == 8 {
        '8'
    } else {
        '9'
    }
}

/// `n` in decimal, without leading zeros.
pub open spec fn decimal(n: nat) -> Seq<char>
    decreases n,
{
    if n < 10 {
        seq![digit_char(n)]
    } else {
        decimal(n / 10) + seq![digit_char(n % 10)]
    }
}

pub open spec fn bool_str(b: bool) -> Seq<char> {
    if b {
        "true"@
    } else {
        "false"@
    }
}

/// One piece if there is a value, none otherwise.
pub open spec fn optional_piece(o: Option<Seq<char>>) -> Seq<Seq<char>> {
    match o {
        Some(p) => seq![p],
        None => seq![],
    }
}

/// The pieces of the query, in their fixed order.
pub open spec fn query_pieces(p: Parameters) -> Seq<Seq<char>> {
    optional_piece(
        match p.max_results {
            Some(v) => Some("maxResults="@ + decimal(v as nat)),
            None => None,
        },
    ) + optional_piece(
        match p.min_access_role {
            Some(r) => Some("minAccessRole="@ + role_str(r)),
            None => None,
        },
    ) + optional_piece(
        match p.page_token {
            Some(t) => Some(form_field("pageToken"@, t@)),
            None => None,
        },
    ) + optional_piece(
        match p.show_deleted {
            Some(b) => Some("showDeleted="@ + bool_str(b)),
            None => None,
        },
    ) + optional_piece(
        match p.show_hidden {
            Some(b) => Some("showHidden="@ + bool_str(b)),
            None => None,
        },
    ) + optional_piece(
        match p.sync_token {
            Some(t) => Some(form_field("syncToken"@, t@)),
            None => None,
        },
    )
}

/// The query string: the pieces joined by `&`.
pub open spec fn query_of(p: Parameters) -> Seq<char> {
    join_sep(query_pieces(p), "&"@)
}

fn digit_str(d: u8) -> (r: &'static str)
    requires
        d < 10,
    ensures
        r@ == seq![digit_char(d as nat)],
{
    proof {
        reveal_strlit("0");
        reveal_strlit("1");
        reveal_strlit("2");
        reveal_strlit("3");
        reveal_strlit("4");
        reveal_strlit("5");
        reveal_strlit("6");
        reveal_strlit("7");
        reveal_strlit("8");
        reveal_strlit("9");
    }
    let r = if d == 0 {
        "0"
    } else if d == 1 {
        "1"
    } else if d == 2 {
        "2"
    } else if d == 3 {
        "3"
    } else if d == 4 {
        "4"
    } else if d == 5 {
        "5"
    } else if d == 6 {
        "6"
    } else if d == 7 {
        "7"
    } else if d == 8 {
        "8"
    } else {
        "9"
    };
    assert(r@ =~= seq![digit_char(d as nat)]);
    r
}

/// `n` in decimal.
pub fn decimal_u8(n: u8) -> (r: String)
    ensures
        r@ == decimal(n as nat),
{
    let mut r = String::new();
    if n >= 100 {
        r.append(digit_str(n / 100));
    }
    if n >= 10 {
        r.append(digit_str((n / 10) % 10));
    }
    r.append(digit_str(n % 10));
    proof {
        let m = n as nat;
        if m >= 100 {
            assert(m / 10 / 10 == m / 100);
            assert(decimal(m / 100) == seq![digit_char(m / 100)]);
            assert(decimal(m / 10) =~= decimal(m / 100) + seq![digit_char((m / 10) % 10)]);
        } else if m >= 10 {
            assert(decimal(m / 10) == seq![digit_char(m / 10)]);
            assert((m / 10) % 10 == m / 10);
        }
        assert(r@ =~= decimal(m));
    }
    r
}

fn bool_string(b: bool) -> (r: &'static str)
    ensures
        r@ == bool_str(b),
{
    if b {
        "true"
    } else {
        "false"
    }
}

fn prefixed(prefix: &str, value: &str) -> (r: String)
    ensures
        r@ == prefix@ + value@,
{
    let mut r = String::new();
    r.append(prefix);
    r.append(value);
    assert(r@ =~= prefix@ + value@);
    r
}

impl Parameters {
    pub open spec fn spec_new() -> Parameters {
        Parameters {
            max_results: None,
            min_access_role: None,
            page_token: None,
            show_deleted: None,
            show_hidden: None,
            sync_token: None,
        }
    }

    /// No parameter set: the query is empty.
    pub fn new() -> (r: Parameters)
        ensures
            r == Parameters::spec_new(),
    {
        Parameters {
            max_results: None,
            min_access_role: None,
            page_token: None,
            show_deleted: None,
            show_hidden: None,
            sync_token: None,
        }
    }

    pub fn max_results(self, value: u8) -> (r: Parameters)
        ensures
            r == (Parameters { max_results: Some(value), ..self }),
    {
        Parameters { max_results: Some(value), ..self }
    }

    pub fn min_access_role(self, value: ParameterMinAccessRole) -> (r: Parameters)
        ensures
            r == (Parameters { min_access_role: Some(value), ..self }),
    {
        Parameters { min_access_role: Some(value), ..self }
    }

    pub fn page_token(self, value: &str) -> (r: Parameters)
        ensures
            r.page_token matches Some(t) && t@ == value@,
            r == (Parameters { page_token: r.page_token, ..self }),
    {
        Parameters { page_token: Some(value.to_string()), ..self }
    }

    pub fn show_deleted(self, value: bool) -> (r: Parameters)
        ensures
            r == (Parameters { show_deleted: Some(value), ..self }),
    {
        Parameters { show_deleted: Some(value), ..self }
    }

    pub fn show_hidden(self, value: bool) -> (r: Parameters)
        ensures
            r == (Parameters { show_hidden: Some(value), ..self }),
    {
        Parameters { show_hidden: Some(value), ..self }
    }

    pub fn sync_token(self, value: &str) -> (r: Parameters)
        ensures
            r.sync_token matches Some(t) && t@ == value@,
            r == (Parameters { sync_token: r.sync_token, ..self }),
    {
        Parameters { sync_token: Some(value.to_string()), ..self }
    }

    /// The query string: the set parameters as `name=value`, in a fixed
    /// order, joined by `&`; tokens percent-encoded.
    pub fn into_query(self) -> (r: String)
        ensures
            r@ == query_of(self),
    {
        let ghost p = self;
        let mut pieces: Vec<String> = Vec::new();
        let ghost mut expected: Seq<Seq<char>> = seq![];
        match self.max_results {
            Some(v) => {
                let digits = decimal_u8(v);
                pieces.push(prefixed("maxResults=", digits.as_str()));
            },
            None => {},
        }
        proof {
            expected = optional_piece(
                match p.max_results {
                    Some(v) => Some("maxResults="@ + decimal(v as nat)),
                    None => None,
                },
            );
            assert(pieces@.map_values(|s: String| s@) =~= expected);
        }
        match self.min_access_role {
            Some(role) => {
                pieces.push(prefixed("minAccessRole=", role.as_str()));
            },
            None => {},
        }
        proof {
            expected = expected + optional_piece(
                match p.min_access_role {
                    Some(r) => Some("minAccessRole="@ + role_str(r)),
                    None => None,
                },
            );
            assert(pieces@.map_values(|s: String| s@) =~= expected);
        }
        match &self.page_token {
            Some(t) => {
                pieces.push(encode_field("pageToken", t.as_str()));
            },
            None => {},
        }
        proof {
            expected = expected + optional_piece(
                match p.page_token {
                    Some(t) => Some(form_field("pageToken"@, t@)),
                    None => None,
                },
            );
            assert(pieces@.map_values(|s: String| s@) =~= expected);
        }
        match self.show_deleted {
            Some(b) => {
                pieces.push(prefixed("showDeleted=", bool_string(b)));
            },
            None => {},
        }
        proof {
            expected = expected + optional_piece(
                match p.show_deleted {
                    Some(b) => Some("showDeleted="@ + bool_str(b)),
                    None => None,
                },
            );
            assert(pieces@.map_values(|s: String| s@) =~= expected);
        }
        match self.show_hidden {
            Some(b) => {
                pieces.push(prefixed("showHidden=", bool_string(b)));
            },
            None => {},
        }
        proof {
            expected = expected + optional_piece(
                match p.show_hidden {
                    Some(b) => Some("showHidden="@ + bool_str(b)),
                    None => None,
                },
            );
            assert(pieces@.map_values(|s: String| s@) =~= expected);
        }
        match &self.sync_token {
            Some(t) => {
                pieces.push(encode_field("syncToken", t.as_str()));
            },
            None => {},
        }
        proof {
            expected = expected + optional_piece(
                match p.sync_token {
                    Some(t) => Some(form_field("syncToken"@, t@)),
                    None => None,
                },
            );
            assert(pieces@.map_values(|s: String| s@) =~= expected);
            assert(expected =~= query_pieces(p));
        }
        join_with(&pieces, "&")
    }
}

/// A calendar-list request: the resource and its parameters.
pub struct Request<'a> {
    client: Client<'a>,
    parameters: Parameters,
}

/// The path of the calendar-list resource under the API's base URL.
pub open spec fn calendar_list_url() -> Seq<char> {
    "https://www.googleapis.com"@ + "/calendar/v3"@ + "/users/me/calendarList"@
}

impl<'a> Request<'a> {
    pub closed spec fn spec_client(&self) -> AuthorizedClient {
        self.client.spec_client()
    }

    pub closed spec fn spec_parameters(&self) -> Parameters {
        self.parameters
    }

    pub fn parameters(&self) -> (r: &Parameters)
        ensures
            *r == self.spec_parameters(),
    {
        &self.parameters
    }

    fn new(client: Client<'a>) -> (r: Request<'a>)
        ensures
            r.spec_client() == client.spec_client(),
            r.spec_parameters() == Parameters::spec_new(),
    {
        Request { client, parameters: Parameters::new() }
    }

    pub fn client(&self) -> (r: &'a AuthorizedClient)
        ensures
            *r == self.spec_client(),
    {
        self.client.inner.client()
    }

    /// The parameters replaced by what `with` makes of them.
    pub fn replace_parameters<F: FnOnce(Parameters) -> Parameters>(self, with: F) -> (r: Request<
        'a,
    >)
        requires
            with.requires((self.spec_parameters(),)),
        ensures
            r.spec_client() == self.spec_client(),
            with.ensures((self.spec_parameters(),), r.spec_parameters()),
    {
        let Request { client, parameters } = self;
        Request { client, parameters: with(parameters) }
    }

    pub fn param_max_results(self, value: u8) -> (r: Request<'a>)
        ensures
            r.spec_client() == self.spec_client(),
            r.spec_parameters() == (Parameters { max_results: Some(value), ..self.spec_parameters() }),
    {
        let Request { client, parameters } = self;
        Request { client, parameters: parameters.max_results(value) }
    }

    pub fn param_min_access_role(self, value: ParameterMinAccessRole) -> (r: Request<'a>)
        ensures
            r.spec_client() == self.spec_client(),
            r.spec_parameters() == (Parameters { min_access_role: Some(value), ..self.spec_parameters() }),
    {
        let Request { client, parameters } = self;
        Request { client, parameters: parameters.min_access_role(value) }
    }

    pub fn param_page_token(self, value: &str) -> (r: Request<'a>)
        ensures
            r.spec_client() == self.spec_client(),
            r.spec_parameters().page_token matches Some(t) && t@ == value@,
            r.spec_parameters() == (Parameters { page_token: r.spec_parameters().page_token, ..self.spec_parameters() }),
    {
        let Request { client, parameters } = self;
        Request { client, parameters: parameters.page_token(value) }
    }

    pub fn param_show_deleted(self, value: bool) -> (r: Request<'a>)
        ensures
            r.spec_client() == self.spec_client(),
            r.spec_parameters() == (Parameters { show_deleted: Some(value), ..self.spec_parameters() }),
    {
        let Request { client, parameters } = self;
        Request { client, parameters: parameters.show_deleted(value) }
    }

    pub fn param_show_hidden(self, value: bool) -> (r: Request<'a>)
        ensures
            r.spec_client() == self.spec_client(),
            r.spec_parameters() == (Parameters { show_hidden: Some(value), ..self.spec_parameters() }),
    {
        let Request { client, parameters } = self;
        Request { client, parameters: parameters.show_hidden(value) }
    }

    pub fn param_sync_token(self, value: &str) -> (r: Request<'a>)
        ensures
            r.spec_client() == self.spec_client(),
            r.spec_parameters().sync_token matches Some(t) && t@ == value@,
            r.spec_parameters() == (Parameters { sync_token: r.spec_parameters().sync_token, ..self.spec_parameters() }),
    {
        let Request { client, parameters } = self;
        Request { client, parameters: parameters.sync_token(value) }
    }

    /// The URL to fetch: the resource's URL, then `?` and the query unless
    /// the query is empty.
    pub fn into_url(self) -> (r: String)
        ensures
            r@ == if query_of(self.spec_parameters()).len() == 0 {
                calendar_list_url()
            } else {
                calendar_list_url() + "?"@ + query_of(self.spec_parameters())
            },
    {
        let Request { client, parameters } = self;
        let query = parameters.into_query();
        let mut r = "https://www.googleapis.com".to_string();
        r.append("/calendar/v3");
        r.append("/users/me/calendarList");
        if query.as_str().unicode_len() > 0 {
            r.append("?");
            r.append(query.as_str());
        }
        r
    }
}

} // verus!
