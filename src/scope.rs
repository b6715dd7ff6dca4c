use vstd::prelude::*;

use crate::text::{
    has_no_space, lemma_split_pieces, join_spaces, join_with_spaces, lemma_split_join, split_on_spaces, split_spaces,
    str_eq,
};

verus! {

pub open spec fn calendar_uri() -> Seq<char> {
    "https://www.googleapis.com/auth/calendar"@
}

pub open spec fn calendar_readonly_uri() -> Seq<char> {
    "https://www.googleapis.com/auth/calendar.readonly"@
}

pub open spec fn calendar_events_uri() -> Seq<char> {
    "https://www.googleapis.com/auth/calendar.events"@
}

pub open spec fn calendar_events_readonly_uri() -> Seq<char> {
    "https://www.googleapis.com/auth/calendar.events.readonly"@
}

pub open spec fn calendar_settings_readonly_uri() -> Seq<char> {
    "https://www.googleapis.com/auth/calendar.settings.readonly"@
}

pub open spec fn calendar_addons_execute_uri() -> Seq<char> {
    "https://www.googleapis.com/auth/calendar.addons.execute"@
}

/// One permission scope, identified by its URI. The catalog scopes have a
/// variant each; a scope the catalog does not know is kept by its URI.
/// Equality compares URIs; the derived hash agrees with it on well-formed
/// values, where each URI has exactly one value.
#[derive(Debug, Eq, Hash)]
pub enum DynSingleScope {
    Calendar,
    CalendarReadonly,
    CalendarEvents,
    CalendarEventsReadonly,
    CalendarSettingsReadonly,
    CalendarAddonsExecute,
    Unknown(String),
}

impl View for DynSingleScope {
    type V = Seq<char>;

    /// The scope's URI, its identity on the wire.
    open spec fn view(&self) -> Seq<char> {
        match self {
            DynSingleScope::Calendar => calendar_uri(),
            DynSingleScope::CalendarReadonly => calendar_readonly_uri(),
            DynSingleScope::CalendarEvents => calendar_events_uri(),
            DynSingleScope::CalendarEventsReadonly => calendar_events_readonly_uri(),
            DynSingleScope::CalendarSettingsReadonly => calendar_settings_readonly_uri(),
            DynSingleScope::CalendarAddonsExecute => calendar_addons_execute_uri(),
            DynSingleScope::Unknown(s) => s@,
        }
    }
}

/// The catalog: the scope whose URI is `u`, if the catalog holds one.
pub open spec fn catalog_scope(u: Seq<char>) -> Option<DynSingleScope> {
    if u == calendar_uri() {
        Some(DynSingleScope::Calendar)
    } else if u == calendar_readonly_uri() {
        Some(DynSingleScope::CalendarReadonly)
    } else if u == calendar_events_uri() {
        Some(DynSingleScope::CalendarEvents)
    } else if u == calendar_events_readonly_uri() {
        Some(DynSingleScope::CalendarEventsReadonly)
    } else if u == calendar_settings_readonly_uri() {
        Some(DynSingleScope::CalendarSettingsReadonly)
    } else if u == calendar_addons_execute_uri() {
        Some(DynSingleScope::CalendarAddonsExecute)
    } else {
        None
    }
}

pub open spec fn is_catalog_uri(u: Seq<char>) -> bool {
    catalog_scope(u) is Some
}

/// The catalog by short name: the scope whose URI ends in `n` after
/// `https://www.googleapis.com/auth/`, if the catalog holds one.
pub open spec fn catalog_named(n: Seq<char>) -> Option<DynSingleScope> {
    if n == "calendar"@ {
        Some(DynSingleScope::Calendar)
    } else if n == "calendar.readonly"@ {
        Some(DynSingleScope::CalendarReadonly)
    } else if n == "calendar.events"@ {
        Some(DynSingleScope::CalendarEvents)
    } else if n == "calendar.events.readonly"@ {
        Some(DynSingleScope::CalendarEventsReadonly)
    } else if n == "calendar.settings.readonly"@ {
        Some(DynSingleScope::CalendarSettingsReadonly)
    } else if n == "calendar.addons.execute"@ {
        Some(DynSingleScope::CalendarAddonsExecute)
    } else {
        None
    }
}

/// What a caller-written token names: a catalog scope by URI, else by
/// short name.
pub open spec fn catalog_token(t: Seq<char>) -> Option<DynSingleScope> {
    match catalog_scope(t) {
        Some(d) => Some(d),
        None => catalog_named(t),
    }
}

/// The URI a caller-written catalog token stands for.
pub open spec fn token_uri(t: Seq<char>) -> Seq<char> {
    catalog_token(t)->Some_0@
}

/// A piece of a wire string that can name a scope: not empty, no space.
pub open spec fn is_scope_token(u: Seq<char>) -> bool {
    u.len() > 0 && has_no_space(u)
}

impl DynSingleScope {
    /// An unknown scope holds a token outside the catalog, so that each URI
    /// has exactly one value.
    pub open spec fn wf(&self) -> bool {
        match self {
            DynSingleScope::Unknown(s) => is_scope_token(s@) && !is_catalog_uri(s@),
            _ => true,
        }
    }

    pub open spec fn is_known(&self) -> bool {
        !(self is Unknown)
    }

    /// The catalog scope with URI `s`, if there is one.
    pub fn from_uri(s: &str) -> (r: Option<DynSingleScope>)
        ensures
            r == catalog_scope(s@),
    {
        if str_eq(s, "https://www.googleapis.com/auth/calendar") {
            Some(DynSingleScope::Calendar)
        } else if str_eq(s, "https://www.googleapis.com/auth/calendar.readonly") {
            Some(DynSingleScope::CalendarReadonly)
        } else if str_eq(s, "https://www.googleapis.com/auth/calendar.events") {
            Some(DynSingleScope::CalendarEvents)
        } else if str_eq(s, "https://www.googleapis.com/auth/calendar.events.readonly") {
            Some(DynSingleScope::CalendarEventsReadonly)
        } else if str_eq(s, "https://www.googleapis.com/auth/calendar.settings.readonly") {
            Some(DynSingleScope::CalendarSettingsReadonly)
        } else if str_eq(s, "https://www.googleapis.com/auth/calendar.addons.execute") {
            Some(DynSingleScope::CalendarAddonsExecute)
        } else {
            None
        }
    }

    /// The catalog scope with short name `s`, if there is one.
    pub fn from_name(s: &str) -> (r: Option<DynSingleScope>)
        ensures
            r == catalog_named(s@),
    {
        if str_eq(s, "calendar") {
            Some(DynSingleScope::Calendar)
        } else if str_eq(s, "calendar.readonly") {
            Some(DynSingleScope::CalendarReadonly)
        } else if str_eq(s, "calendar.events") {
            Some(DynSingleScope::CalendarEvents)
        } else if str_eq(s, "calendar.events.readonly") {
            Some(DynSingleScope::CalendarEventsReadonly)
        } else if str_eq(s, "calendar.settings.readonly") {
            Some(DynSingleScope::CalendarSettingsReadonly)
        } else if str_eq(s, "calendar.addons.execute") {
            Some(DynSingleScope::CalendarAddonsExecute)
        } else {
            None
        }
    }

    /// The catalog scope a caller-written token names, by URI or by short
    /// name.
    pub fn from_catalog_token(s: &str) -> (r: Option<DynSingleScope>)
        ensures
            r == catalog_token(s@),
    {
        match DynSingleScope::from_uri(s) {
            Some(d) => Some(d),
            None => DynSingleScope::from_name(s),
        }
    }

    /// The scope named by a token of a provider's answer: the catalog scope
    /// if there is one, else the token kept as it is.
    pub fn from_token(s: &str) -> (r: DynSingleScope)
        requires
            is_scope_token(s@),
        ensures
            r@ == s@,
            r.wf(),
            r.is_known() == is_catalog_uri(s@),
    {
        match DynSingleScope::from_uri(s) {
            Some(d) => {
                proof {
                    lemma_catalog_uris();
                }
                d
            },
            None => DynSingleScope::Unknown(s.to_string()),
        }
    }

    /// The scope's URI.
    pub fn as_str(&self) -> (r: &str)
        ensures
            r@ == self@,
    {
        match self {
            DynSingleScope::Calendar => "https://www.googleapis.com/auth/calendar",
            DynSingleScope::CalendarReadonly => "https://www.googleapis.com/auth/calendar.readonly",
            DynSingleScope::CalendarEvents => "https://www.googleapis.com/auth/calendar.events",
            DynSingleScope::CalendarEventsReadonly => {
                "https://www.googleapis.com/auth/calendar.events.readonly"
            },
            DynSingleScope::CalendarSettingsReadonly => {
                "https://www.googleapis.com/auth/calendar.settings.readonly"
            },
            DynSingleScope::CalendarAddonsExecute => {
                "https://www.googleapis.com/auth/calendar.addons.execute"
            },
            DynSingleScope::Unknown(s) => s.as_str(),
        }
    }
}

impl Clone for DynSingleScope {
    fn clone(&self) -> (r: Self)
        ensures
            r == *self,
    {
        match self {
            DynSingleScope::Calendar => DynSingleScope::Calendar,
            DynSingleScope::CalendarReadonly => DynSingleScope::CalendarReadonly,
            DynSingleScope::CalendarEvents => DynSingleScope::CalendarEvents,
            DynSingleScope::CalendarEventsReadonly => DynSingleScope::CalendarEventsReadonly,
            DynSingleScope::CalendarSettingsReadonly => DynSingleScope::CalendarSettingsReadonly,
            DynSingleScope::CalendarAddonsExecute => DynSingleScope::CalendarAddonsExecute,
            DynSingleScope::Unknown(s) => DynSingleScope::Unknown(s.clone()),
        }
    }
}

impl PartialEq for DynSingleScope {
    /// Two scopes are equal when their URIs are.
    fn eq(&self, other: &DynSingleScope) -> (r: bool) {
        let a = DynSingleScope::as_str(self);
        let b = DynSingleScope::as_str(other);
        let r = str_eq(a, b);
        assert(r == (self@ == other@));
        r
    }
}

impl vstd::std_specs::cmp::PartialEqSpecImpl for DynSingleScope {
    open spec fn obeys_eq_spec() -> bool {
        true
    }

    open spec fn eq_spec(&self, other: &DynSingleScope) -> bool {
        self@ == other@
    }
}

/// The catalog as a table: each catalog scope with its URI.
pub fn all_scope_map() -> (r: Vec<(&'static str, DynSingleScope)>)
    ensures
        r@.len() == 6,
        forall|i: int| 0 <= i < r@.len() ==> #[trigger] r@[i].0@ == r@[i].1@ && r@[i].1.is_known(),
        forall|u: Seq<char>|
            is_catalog_uri(u) <==> exists|i: int| 0 <= i < r@.len() && #[trigger] r@[i].0@ == u,
{
    let mut r: Vec<(&'static str, DynSingleScope)> = Vec::new();
    r.push(("https://www.googleapis.com/auth/calendar", DynSingleScope::Calendar));
    r.push(("https://www.googleapis.com/auth/calendar.readonly", DynSingleScope::CalendarReadonly));
    r.push(("https://www.googleapis.com/auth/calendar.events", DynSingleScope::CalendarEvents));
    r.push(
        (
            "https://www.googleapis.com/auth/calendar.events.readonly",
            DynSingleScope::CalendarEventsReadonly,
        ),
    );
    r.push(
        (
            "https://www.googleapis.com/auth/calendar.settings.readonly",
            DynSingleScope::CalendarSettingsReadonly,
        ),
    );
    r.push(
        (
            "https://www.googleapis.com/auth/calendar.addons.execute",
            DynSingleScope::CalendarAddonsExecute,
        ),
    );
    proof {
        lemma_catalog_uris();
        assert forall|u: Seq<char>| is_catalog_uri(u) implies exists|i: int|
            0 <= i < r@.len() && #[trigger] r@[i].0@ == u by {
            if u == calendar_uri() {
                assert(r@[0].0@ == u);
            } else if u == calendar_readonly_uri() {
                assert(r@[1].0@ == u);
            } else if u == calendar_events_uri() {
                assert(r@[2].0@ == u);
            } else if u == calendar_events_readonly_uri() {
                assert(r@[3].0@ == u);
            } else if u == calendar_settings_readonly_uri() {
                assert(r@[4].0@ == u);
            } else {
                assert(r@[5].0@ == u);
            }
        }
    }
    r
}

/// The six catalog URIs are distinct tokens, and each names its own variant.
pub proof fn lemma_catalog_uris()
    ensures
        catalog_scope(calendar_uri()) == Some(DynSingleScope::Calendar),
        catalog_scope(calendar_readonly_uri()) == Some(DynSingleScope::CalendarReadonly),
        catalog_scope(calendar_events_uri()) == Some(DynSingleScope::CalendarEvents),
        catalog_scope(calendar_events_readonly_uri()) == Some(
            DynSingleScope::CalendarEventsReadonly,
        ),
        catalog_scope(calendar_settings_readonly_uri()) == Some(
            DynSingleScope::CalendarSettingsReadonly,
        ),
        catalog_scope(calendar_addons_execute_uri()) == Some(
            DynSingleScope::CalendarAddonsExecute,
        ),
        is_scope_token(calendar_uri()),
        is_scope_token(calendar_readonly_uri()),
        is_scope_token(calendar_events_uri()),
        is_scope_token(calendar_events_readonly_uri()),
        is_scope_token(calendar_settings_readonly_uri()),
        is_scope_token(calendar_addons_execute_uri()),
{
    reveal_strlit("https://www.googleapis.com/auth/calendar");
    reveal_strlit("https://www.googleapis.com/auth/calendar.readonly");
    reveal_strlit("https://www.googleapis.com/auth/calendar.events");
    reveal_strlit("https://www.googleapis.com/auth/calendar.events.readonly");
    reveal_strlit("https://www.googleapis.com/auth/calendar.settings.readonly");
    reveal_strlit("https://www.googleapis.com/auth/calendar.addons.execute");
    assert(calendar_uri().len() == 40);
    assert(calendar_readonly_uri().len() == 49);
    assert(calendar_events_uri().len() == 47);
    assert(calendar_events_readonly_uri().len() == 56);
    assert(calendar_settings_readonly_uri().len() == 58);
    assert(calendar_addons_execute_uri().len() == 55);
}

/// The set of URIs that a sequence of scopes names.
pub open spec fn uri_set(s: Seq<DynSingleScope>) -> Set<Seq<char>> {
    Set::new(|u: Seq<char>| exists|i: int| 0 <= i < s.len() && #[trigger] s[i]@ == u)
}

/// The URIs of a sequence of scopes, in order.
pub open spec fn uris_of(s: Seq<DynSingleScope>) -> Seq<Seq<char>> {
    s.map_values(|d: DynSingleScope| d@)
}

/// `acc` with `d` added at the end, unless a scope with its URI is already
/// there.
pub open spec fn add_scope_to(acc: Seq<DynSingleScope>, d: DynSingleScope) -> Seq<
    DynSingleScope,
> {
    if uri_set(acc).contains(d@) {
        acc
    } else {
        acc.push(d)
    }
}

/// `acc` with each scope of `s` added in turn, in `s`'s order.
pub open spec fn add_all(acc: Seq<DynSingleScope>, s: Seq<DynSingleScope>) -> Seq<DynSingleScope>
    decreases s.len(),
{
    if s.len() == 0 {
        acc
    } else {
        add_scope_to(add_all(acc, s.drop_last()), s.last())
    }
}

/// `acc` with `u` added at the end, unless it is already there.
pub open spec fn add_uri_to(acc: Seq<Seq<char>>, u: Seq<char>) -> Seq<Seq<char>> {
    if acc.contains(u) {
        acc
    } else {
        acc.push(u)
    }
}

/// `acc` with each URI of `us` added in turn, in `us`'s order.
pub open spec fn add_all_uris(acc: Seq<Seq<char>>, us: Seq<Seq<char>>) -> Seq<Seq<char>>
    decreases us.len(),
{
    if us.len() == 0 {
        acc
    } else {
        add_uri_to(add_all_uris(acc, us.drop_last()), us.last())
    }
}

/// The non-empty pieces, in order.
pub open spec fn nonempty_pieces(ps: Seq<Seq<char>>) -> Seq<Seq<char>>
    decreases ps.len(),
{
    if ps.len() == 0 {
        seq![]
    } else if ps.last().len() > 0 {
        nonempty_pieces(ps.drop_last()).push(ps.last())
    } else {
        nonempty_pieces(ps.drop_last())
    }
}

/// Adding a scope adds its URI to the URIs.
pub proof fn lemma_uris_add_scope(acc: Seq<DynSingleScope>, d: DynSingleScope)
    ensures
        uris_of(add_scope_to(acc, d)) == add_uri_to(uris_of(acc), d@),
{
    lemma_uri_set_is_uris(acc);
    assert(uris_of(acc.push(d)) =~= uris_of(acc).push(d@));
}

/// Every scope well formed, and no URI twice.
pub open spec fn scopes_wf(s: Seq<DynSingleScope>) -> bool {
    &&& forall|i: int| 0 <= i < s.len() ==> (#[trigger] s[i]).wf()
    &&& forall|i: int, j: int| #![trigger s[i], s[j]] 0 <= i < j < s.len() ==> s[i]@ != s[j]@
}

pub proof fn lemma_uri_set_push(s: Seq<DynSingleScope>, d: DynSingleScope)
    ensures
        uri_set(s.push(d)) == uri_set(s).insert(d@),
{
    assert forall|u: Seq<char>| uri_set(s.push(d)).contains(u) implies uri_set(s).insert(
        d@,
    ).contains(u) by {
        let i = choose|i: int| 0 <= i < s.len() + 1 && #[trigger] s.push(d)[i]@ == u;
        if i < s.len() {
            assert(s[i]@ == u);
        }
    }
    assert forall|u: Seq<char>| uri_set(s).insert(d@).contains(u) implies uri_set(
        s.push(d),
    ).contains(u) by {
        if u == d@ {
            assert(s.push(d)[s.len() as int]@ == u);
        } else {
            let i = choose|i: int| 0 <= i < s.len() && #[trigger] s[i]@ == u;
            assert(s.push(d)[i]@ == u);
        }
    }
    assert(uri_set(s.push(d)) =~= uri_set(s).insert(d@));
}

/// The wire form of a sequence of scopes: their URIs joined by single spaces.
pub open spec fn wire_of(s: Seq<DynSingleScope>) -> Seq<char> {
    join_spaces(uris_of(s))
}

/// Whether a caller-written token names a catalog scope.
pub open spec fn is_catalog_token(t: Seq<char>) -> bool {
    catalog_token(t) is Some
}

/// What a strict parse of a wire string gives: the set of the URIs its
/// pieces name if each names a catalog scope, else nothing.
pub open spec fn parse_wire_spec(w: Seq<char>) -> Option<Set<Seq<char>>> {
    if forall|i: int|
        0 <= i < split_spaces(w).len() ==> is_catalog_token(#[trigger] split_spaces(w)[i]) {
        Some(split_spaces(w).map_values(|t: Seq<char>| token_uri(t)).to_set())
    } else {
        None
    }
}

/// The catalog scopes that caller-written tokens name, in order.
pub open spec fn parsed_scopes(ts: Seq<Seq<char>>) -> Seq<DynSingleScope> {
    ts.map_values(|t: Seq<char>| catalog_token(t)->Some_0)
}

/// The first piece of a wire string that names no catalog scope.
pub open spec fn is_first_unknown(w: Seq<char>, i: int) -> bool {
    &&& 0 <= i < split_spaces(w).len()
    &&& !is_catalog_token(split_spaces(w)[i])
    &&& forall|j: int| 0 <= j < i ==> is_catalog_token(#[trigger] split_spaces(w)[j])
}

/// What a lenient parse of a provider's scope string keeps: every non-empty
/// piece, known to the catalog or not.
pub open spec fn granted_uris(w: Seq<char>) -> Set<Seq<char>> {
    split_spaces(w).to_set().filter(|u: Seq<char>| u.len() > 0)
}

spec fn granted_uris_upto(ps: Seq<Seq<char>>, i: int) -> Set<Seq<char>> {
    ps.take(i).to_set().filter(|u: Seq<char>| u.len() > 0)
}

pub proof fn lemma_uri_set_is_uris(s: Seq<DynSingleScope>)
    ensures
        uri_set(s) == uris_of(s).to_set(),
{
    assert forall|u: Seq<char>| uri_set(s).contains(u) implies uris_of(s).to_set().contains(u) by {
        let i = choose|i: int| 0 <= i < s.len() && #[trigger] s[i]@ == u;
        assert(uris_of(s)[i] == u);
    }
    assert forall|u: Seq<char>| uris_of(s).to_set().contains(u) implies uri_set(s).contains(u) by {
        let i = choose|i: int| 0 <= i < uris_of(s).len() && #[trigger] uris_of(s)[i] == u;
        assert(s[i]@ == u);
    }
    assert(uri_set(s) =~= uris_of(s).to_set());
}

/// Every well-formed scope's URI is a token, and a catalog scope is found
/// again in the catalog by its URI.
pub proof fn lemma_scope_token(d: DynSingleScope)
    requires
        d.wf(),
    ensures
        is_scope_token(d@),
        d.is_known() ==> catalog_scope(d@) == Some(d),
{
    lemma_catalog_uris();
}

proof fn lemma_split_wire(s: Seq<DynSingleScope>)
    requires
        scopes_wf(s),
        s.len() > 0,
    ensures
        split_spaces(wire_of(s)) == uris_of(s),
        forall|i: int| 0 <= i < s.len() ==> is_scope_token(#[trigger] uris_of(s)[i]),
{
    assert forall|i: int| 0 <= i < s.len() implies is_scope_token(#[trigger] uris_of(s)[i]) by {
        lemma_scope_token(s[i]);
    }
    lemma_split_join(uris_of(s));
}

/// Wire round trip: a non-empty set of catalog scopes, written to its wire
/// string and parsed back strictly, gives the same set of scopes.
pub proof fn lemma_wire_round_trip(s: SpaceDelimitedScope)
    requires
        s.wf(),
        s@.len() > 0,
        forall|i: int| 0 <= i < s@.len() ==> (#[trigger] s@[i]).is_known(),
    ensures
        parse_wire_spec(wire_of(s@)) == Some(s.uris()),
{
    lemma_split_wire(s@);
    let ps = split_spaces(wire_of(s@));
    assert forall|i: int| 0 <= i < ps.len() implies is_catalog_token(#[trigger] ps[i]) by {
        lemma_scope_token(s@[i]);
    }
    assert(ps.map_values(|t: Seq<char>| token_uri(t)) =~= uris_of(s@)) by {
        assert forall|i: int| 0 <= i < ps.len() implies token_uri(#[trigger] ps[i]) == uris_of(
            s@,
        )[i] by {
            lemma_scope_token(s@[i]);
        }
    }
    lemma_uri_set_is_uris(s@);
}

/// Lenient round trip: any set of scopes, catalog or not, empty or not,
/// written to its wire string and parsed back as a provider's answer, gives
/// the same set of scopes.
pub proof fn lemma_granted_round_trip(s: SpaceDelimitedScope)
    requires
        s.wf(),
    ensures
        granted_uris(wire_of(s@)) == s.uris(),
{
    if s@.len() == 0 {
        assert(uris_of(s@) =~= Seq::<Seq<char>>::empty());
        assert(split_spaces(wire_of(s@)) =~= seq![Seq::<char>::empty()]);
        assert(granted_uris(wire_of(s@)) =~= Set::<Seq<char>>::empty());
        assert(s.uris() =~= Set::<Seq<char>>::empty());
    } else {
        lemma_split_wire(s@);
        lemma_uri_set_is_uris(s@);
        assert forall|u: Seq<char>| #[trigger] uris_of(s@).to_set().contains(u) implies u.len()
            > 0 by {
            let i = choose|i: int| 0 <= i < uris_of(s@).len() && uris_of(s@)[i] == u;
            assert(is_scope_token(uris_of(s@)[i]));
        }
        assert(granted_uris(wire_of(s@)) =~= s.uris());
    }
}

/// A set of scopes: each URI once, kept in the order in which it was added.
#[derive(Debug)]
pub struct SpaceDelimitedScope(Vec<DynSingleScope>);

impl View for SpaceDelimitedScope {
    type V = Seq<DynSingleScope>;

    closed spec fn view(&self) -> Seq<DynSingleScope> {
        self.0@
    }
}

/// A strict parse met a token that names no catalog scope.
#[derive(Debug)]
pub struct UnknownScopeError {
    pub token: String,
}

impl SpaceDelimitedScope {
    pub open spec fn wf(&self) -> bool {
        scopes_wf(self@)
    }

    pub open spec fn uris(&self) -> Set<Seq<char>> {
        uri_set(self@)
    }

    /// The empty set.
    pub fn new() -> (r: SpaceDelimitedScope)
        ensures
            r.wf(),
            r@ == Seq::<DynSingleScope>::empty(),
    {
        SpaceDelimitedScope(Vec::new())
    }

    /// The scopes, in order.
    pub fn into_vec(self) -> (r: Vec<DynSingleScope>)
        ensures
            r@ == self@,
    {
        self.0
    }

    /// The scopes, in order.
    pub fn as_vec(&self) -> (r: &Vec<DynSingleScope>)
        ensures
            r@ == self@,
    {
        &self.0
    }

    pub fn len(&self) -> (r: usize)
        ensures
            r == self@.len(),
    {
        self.0.len()
    }

    /// Whether the set holds a scope with the URI of `d`.
    pub fn contains(&self, d: &DynSingleScope) -> (r: bool)
        ensures
            r == self.uris().contains(d@),
    {
        let mut i: usize = 0;
        while i < self.0.len()
            invariant
                0 <= i <= self@.len(),
                forall|j: int| 0 <= j < i ==> #[trigger] self@[j]@ != d@,
            decreases self@.len() - i,
        {
            if str_eq(DynSingleScope::as_str(&self.0[i]), DynSingleScope::as_str(d)) {
                assert(self@[i as int]@ == d@);
                return true;
            }
            i = i + 1;
        }
        false
    }

    /// Adds `d` at the end, unless a scope with its URI is already there.
    pub fn insert(&mut self, d: DynSingleScope)
        requires
            old(self).wf(),
            d.wf(),
        ensures
            final(self).wf(),
            final(self).uris() == old(self).uris().insert(d@),
            final(self)@ == add_scope_to(old(self)@, d),
    {
        if !self.contains(&d) {
            proof {
                lemma_uri_set_push(self@, d);
            }
            let ghost before = self@;
            self.0.push(d);
            assert forall|i: int, j: int| #![trigger self@[i], self@[j]]
                0 <= i < j < self@.len() implies self@[i]@ != self@[j]@ by {
                if j == before.len() {
                    assert(before[i]@ == self@[i]@);
                } else {
                    assert(before[i] == self@[i] && before[j] == self@[j]);
                }
            }
        } else {
            assert(self.uris().insert(d@) =~= self.uris());
        }
    }

    /// A copy of the set, scope by scope.
    pub fn duplicate(&self) -> (r: SpaceDelimitedScope)
        ensures
            r@ == self@,
    {
        let mut v: Vec<DynSingleScope> = Vec::new();
        let mut i: usize = 0;
        while i < self.0.len()
            invariant
                0 <= i <= self@.len(),
                v@ == self@.take(i as int),
            decreases self@.len() - i,
        {
            v.push(self.0[i].clone());
            assert(v@ =~= self@.take(i + 1));
            i = i + 1;
        }
        assert(v@ =~= self@);
        SpaceDelimitedScope(v)
    }

    /// Each scope of `other` not yet in the set is added, in `other`'s order.
    pub fn extend(&mut self, other: &SpaceDelimitedScope)
        requires
            old(self).wf(),
            other.wf(),
        ensures
            final(self).wf(),
            final(self).uris() == old(self).uris().union(other.uris()),
            final(self)@ == add_all(old(self)@, other@),
    {
        let ghost start = self.uris();
        let ghost start_seq = self@;
        assert(other@.take(0) =~= Seq::<DynSingleScope>::empty());
        let mut i: usize = 0;
        while i < other.0.len()
            invariant
                0 <= i <= other@.len(),
                other.wf(),
                self.wf(),
                self.uris() == start.union(uri_set(other@.take(i as int))),
                self@ == add_all(start_seq, other@.take(i as int)),
            decreases other@.len() - i,
        {
            let d = other.0[i].clone();
            self.insert(d);
            proof {
                assert(other@.take(i + 1) =~= other@.take(i as int).push(other@[i as int]));
                assert(other@.take(i + 1).drop_last() =~= other@.take(i as int));
                lemma_uri_set_push(other@.take(i as int), other@[i as int]);
                assert(self.uris() =~= start.union(uri_set(other@.take(i + 1))));
            }
            i = i + 1;
        }
        assert(other@.take(other@.len() as int) =~= other@);
    }

    /// The union of two sets: this set's scopes, then those of `other` that
    /// it lacks.
    pub fn union(&self, other: &SpaceDelimitedScope) -> (r: SpaceDelimitedScope)
        requires
            self.wf(),
            other.wf(),
        ensures
            r.wf(),
            r.uris() == self.uris().union(other.uris()),
            r@ == add_all(self@, other@),
    {
        let mut r = self.duplicate();
        r.extend(other);
        r
    }

    /// The URIs joined by single spaces, in the set's order.
    pub fn to_wire_string(&self) -> (r: String)
        ensures
            r@ == wire_of(self@),
    {
        let mut pieces: Vec<String> = Vec::new();
        let mut i: usize = 0;
        while i < self.0.len()
            invariant
                0 <= i <= self@.len(),
                pieces@.len() == i,
                forall|k: int| 0 <= k < i ==> #[trigger] pieces@[k]@ == self@[k]@,
            decreases self@.len() - i,
        {
            pieces.push(self.0[i].as_str().to_string());
            i = i + 1;
        }
        assert(pieces@.map_values(|p: String| p@) =~= uris_of(self@));
        join_with_spaces(&pieces)
    }

    /// Parses a space-delimited scope string that a caller wrote: each piece
    /// must name a catalog scope, by URI or by short name; the first that
    /// does not is reported.
    pub fn parse_wire_string(s: &str) -> (r: Result<SpaceDelimitedScope, UnknownScopeError>)
        ensures
            r is Ok <==> parse_wire_spec(s@) is Some,
            r matches Ok(set) ==> set.wf() && Some(set.uris()) == parse_wire_spec(s@) && (
            forall|i: int| 0 <= i < set@.len() ==> (#[trigger] set@[i]).is_known()) && set@
                == add_all(seq![], parsed_scopes(split_spaces(s@))),
            r matches Err(e) ==> exists|i: int|
                is_first_unknown(s@, i) && e.token@ == #[trigger] split_spaces(s@)[i],
    {
        let pieces = split_on_spaces(s);
        let ghost ps = split_spaces(s@);
        let mut r = SpaceDelimitedScope::new();
        let mut i: usize = 0;
        while i < pieces.len()
            invariant
                0 <= i <= pieces@.len(),
                ps == split_spaces(s@),
                pieces@.len() == ps.len(),
                forall|k: int| 0 <= k < ps.len() ==> #[trigger] pieces@[k]@ == ps[k],
                forall|k: int| 0 <= k < i ==> is_catalog_token(#[trigger] ps[k]),
                r.wf(),
                forall|k: int| 0 <= k < r@.len() ==> (#[trigger] r@[k]).is_known(),
                r.uris() == ps.take(i as int).map_values(|t: Seq<char>| token_uri(t)).to_set(),
                r@ == add_all(seq![], parsed_scopes(ps.take(i as int))),
            decreases pieces@.len() - i,
        {
            match DynSingleScope::from_catalog_token(pieces[i].as_str()) {
                Some(d) => {
                    r.insert(d);
                    proof {
                        assert(parsed_scopes(ps.take(i + 1)) =~= parsed_scopes(
                            ps.take(i as int),
                        ).push(d));
                        assert(parsed_scopes(ps.take(i + 1)).drop_last() =~= parsed_scopes(
                            ps.take(i as int),
                        ));
                        let f = |t: Seq<char>| token_uri(t);
                        assert(ps.take(i + 1).map_values(f) =~= ps.take(i as int).map_values(
                            f,
                        ).push(token_uri(ps[i as int])));
                        assert(d@ == token_uri(ps[i as int]));
                        ps.take(i as int).map_values(f).lemma_push_to_set_commute(
                            token_uri(ps[i as int]),
                        );
                    }
                    assert(r.uris() =~= ps.take(i + 1).map_values(|t: Seq<char>| token_uri(t)).to_set());
                },
                None => {
                    let token = pieces[i].clone();
                    assert(pieces@[i as int]@ == ps[i as int]);
                    assert(!is_catalog_token(ps[i as int]));
                    assert(is_first_unknown(s@, i as int));
                    assert(token@ == split_spaces(s@)[i as int]);
                    return Err(UnknownScopeError { token });
                },
            }
            i = i + 1;
        }
        assert(ps.take(ps.len() as int) =~= ps);
        Ok(r)
    }

    /// Parses the scope string of a provider's answer. It never fails: a
    /// piece outside the catalog is kept as an unknown scope, and empty
    /// pieces are skipped.
    pub fn parse_granted(s: &str) -> (r: SpaceDelimitedScope)
        ensures
            r.wf(),
            r.uris() == granted_uris(s@),
            uris_of(r@) == add_all_uris(seq![], nonempty_pieces(split_spaces(s@))),
    {
        let pieces = split_on_spaces(s);
        let ghost ps = split_spaces(s@);
        proof {
            lemma_split_pieces(s@);
        }
        let mut r = SpaceDelimitedScope::new();
        assert(ps.take(0) =~= Seq::<Seq<char>>::empty());
        assert(uris_of(r@) =~= Seq::<Seq<char>>::empty());
        let mut i: usize = 0;
        while i < pieces.len()
            invariant
                0 <= i <= pieces@.len(),
                ps == split_spaces(s@),
                pieces@.len() == ps.len(),
                forall|k: int| 0 <= k < ps.len() ==> #[trigger] pieces@[k]@ == ps[k],
                forall|k: int| 0 <= k < ps.len() ==> has_no_space(#[trigger] ps[k]),
                r.wf(),
                r.uris() == granted_uris_upto(ps, i as int),
                uris_of(r@) == add_all_uris(seq![], nonempty_pieces(ps.take(i as int))),
            decreases pieces@.len() - i,
        {
            assert(ps.take(i + 1) =~= ps.take(i as int).push(ps[i as int]));
            assert(ps.take(i + 1).drop_last() =~= ps.take(i as int));
            if pieces[i].as_str().unicode_len() > 0 {
                assert(has_no_space(ps[i as int]));
                let d = DynSingleScope::from_token(pieces[i].as_str());
                let ghost before = r@;
                r.insert(d);
                proof {
                    lemma_uris_add_scope(before, d);
                    let ne = nonempty_pieces(ps.take(i as int));
                    assert(ps.take(i + 1).last() == ps[i as int]);
                    assert(nonempty_pieces(ps.take(i + 1)) == ne.push(ps[i as int]));
                    assert(ne.push(ps[i as int]).drop_last() =~= ne);
                    assert(add_all_uris(seq![], ne.push(ps[i as int])) == add_uri_to(
                        add_all_uris(seq![], ne),
                        ps[i as int],
                    ));
                }
                proof { ps.take(i as int).lemma_push_to_set_commute(ps[i as int]); }
                assert(r.uris() =~= granted_uris_upto(ps, i + 1));
            } else {
                proof { ps.take(i as int).lemma_push_to_set_commute(ps[i as int]); }
                assert(granted_uris_upto(ps, i as int) =~= granted_uris_upto(ps, i + 1));
                assert(ps.take(i + 1).last() == ps[i as int]);
                assert(ps[i as int].len() == 0);
                assert(nonempty_pieces(ps.take(i + 1)) == nonempty_pieces(ps.take(i as int)));
            }
            i = i + 1;
        }
        assert(ps.take(ps.len() as int) =~= ps);
        r
    }

    /// The set of the scopes in `v`, repeated URIs taken once.
    pub fn from_scopes(v: Vec<DynSingleScope>) -> (r: SpaceDelimitedScope)
        requires
            forall|i: int| 0 <= i < v@.len() ==> (#[trigger] v@[i]).wf(),
        ensures
            r.wf(),
            r.uris() == uri_set(v@),
            r@ == add_all(seq![], v@),
    {
        let all = SpaceDelimitedScope(v);
        let mut r = SpaceDelimitedScope::new();
        assert(all@.take(0) =~= Seq::<DynSingleScope>::empty());
        let mut i: usize = 0;
        while i < all.0.len()
            invariant
                0 <= i <= all@.len(),
                forall|k: int| 0 <= k < all@.len() ==> (#[trigger] all@[k]).wf(),
                r.wf(),
                r.uris() == uri_set(all@.take(i as int)),
                r@ == add_all(seq![], all@.take(i as int)),
            decreases all@.len() - i,
        {
            r.insert(all.0[i].clone());
            proof {
                assert(all@.take(i + 1) =~= all@.take(i as int).push(all@[i as int]));
                assert(all@.take(i + 1).drop_last() =~= all@.take(i as int));
                lemma_uri_set_push(all@.take(i as int), all@[i as int]);
            }
            i = i + 1;
        }
        assert(all@.take(all@.len() as int) =~= all@);
        r
    }
}

impl Clone for SpaceDelimitedScope {
    fn clone(&self) -> (r: Self)
        ensures
            r@ == self@,
    {
        self.duplicate()
    }
}

/// The supertrait of the scope traits, implemented by this crate's scope
/// types.
pub trait Sealed {
}

/// A single permission scope.
pub trait SingleScope: Sealed {
    /// The scope's URI.
    spec fn uri(&self) -> Seq<char>;

    fn as_dyn(&self) -> (r: DynSingleScope)
        ensures
            r@ == self.uri(),
    ;

    fn as_str(&self) -> (r: &str)
        ensures
            r@ == self.uri(),
    ;

    fn equals(&self, other: &DynSingleScope) -> (r: bool)
        ensures
            r == (self.uri() == other@),
    ;
}

/// A value that stands for a set of scopes.
pub trait Scope: Sealed + Sized {
    spec fn scope_wf(&self) -> bool;

    /// The flattened set of the URIs of the scopes the value stands for.
    spec fn scope_set(&self) -> Set<Seq<char>>;

    /// The scopes as a set, each once.
    fn space_delimited(&self) -> (r: SpaceDelimitedScope)
        requires
            self.scope_wf(),
        ensures
            r.wf(),
            r.uris() == self.scope_set(),
    ;

    /// The scopes, each once.
    fn scope(&self) -> (r: Vec<DynSingleScope>)
        requires
            self.scope_wf(),
        ensures
            scopes_wf(r@),
            uri_set(r@) == self.scope_set(),
    {
        let set = self.space_delimited();
        set.into_vec()
    }

    /// The URIs of the scopes, each once.
    fn scope_str(&self) -> (r: Vec<String>)
        requires
            self.scope_wf(),
        ensures
            r@.map_values(|u: String| u@).to_set() == self.scope_set(),
            r@.map_values(|u: String| u@).no_duplicates(),
    {
        let set = self.space_delimited();
        let scopes = set.as_vec();
        let mut r: Vec<String> = Vec::new();
        let mut i: usize = 0;
        while i < scopes.len()
            invariant
                0 <= i <= scopes@.len(),
                scopes@ == set@,
                set.wf(),
                r@.len() == i,
                forall|k: int| 0 <= k < i ==> #[trigger] r@[k]@ == scopes@[k]@,
            decreases scopes@.len() - i,
        {
            r.push(DynSingleScope::as_str(&scopes[i]).to_string());
            i = i + 1;
        }
        proof {
            assert(r@.map_values(|u: String| u@) =~= uris_of(set@));
            lemma_uri_set_is_uris(set@);
            assert forall|a: int, b: int|
                0 <= a < b < r@.len() implies #[trigger] uris_of(set@)[a] != #[trigger] uris_of(
                set@,
            )[b] by {
                assert(set@[a]@ != set@[b]@);
            }
        }
        r
    }

    /// Whether `other` is one of the scopes.
    fn grants(&self, other: &DynSingleScope) -> (r: bool)
        requires
            self.scope_wf(),
        ensures
            r == self.scope_set().contains(other@),
    {
        self.space_delimited().contains(other)
    }

    /// This value together with `other`: their union.
    fn with<S>(self, other: S) -> (r: With<Self, S>)
        ensures
            r.0 == self,
            r.1 == other,
    ;

    /// The same scopes, behind one type.
    fn boxed_clone(&self) -> (r: BoxScope)
        requires
            self.scope_wf(),
        ensures
            r.wf(),
            r.uris() == self.scope_set(),
    {
        BoxScope(self.space_delimited())
    }

    fn into_boxed(self) -> (r: BoxScope)
        requires
            self.scope_wf(),
        ensures
            r.wf(),
            r.uris() == self.scope_set(),
    {
        self.boxed_clone()
    }
}

impl Sealed for DynSingleScope {
}

impl SingleScope for DynSingleScope {
    open spec fn uri(&self) -> Seq<char> {
        self@
    }

    fn as_dyn(&self) -> (r: DynSingleScope) {
        self.clone()
    }

    fn as_str(&self) -> (r: &str) {
        DynSingleScope::as_str(self)
    }

    fn equals(&self, other: &DynSingleScope) -> (r: bool) {
        str_eq(DynSingleScope::as_str(self), DynSingleScope::as_str(other))
    }
}

impl Scope for DynSingleScope {
    fn with<S>(self, other: S) -> (r: With<Self, S>) {
        With(self, other)
    }

    open spec fn scope_wf(&self) -> bool {
        self.wf()
    }

    open spec fn scope_set(&self) -> Set<Seq<char>> {
        set![self@]
    }

    fn space_delimited(&self) -> (r: SpaceDelimitedScope) {
        let mut r = SpaceDelimitedScope::new();
        r.insert(self.clone());
        assert(r.uris() =~= set![self@]);
        r
    }
}

impl Sealed for SpaceDelimitedScope {
}

impl Scope for SpaceDelimitedScope {
    fn with<S>(self, other: S) -> (r: With<Self, S>) {
        With(self, other)
    }

    open spec fn scope_wf(&self) -> bool {
        self.wf()
    }

    open spec fn scope_set(&self) -> Set<Seq<char>> {
        self.uris()
    }

    fn space_delimited(&self) -> (r: SpaceDelimitedScope) {
        self.duplicate()
    }

    fn grants(&self, other: &DynSingleScope) -> (r: bool) {
        self.contains(other)
    }
}

/// The empty set of scopes.
#[derive(Debug, Clone, Copy, Default, PartialEq, Eq, Hash)]
pub struct NoScope;

impl Sealed for NoScope {
}

impl Scope for NoScope {
    fn with<S>(self, other: S) -> (r: With<Self, S>) {
        With(self, other)
    }

    open spec fn scope_wf(&self) -> bool {
        true
    }

    open spec fn scope_set(&self) -> Set<Seq<char>> {
        Set::empty()
    }

    fn space_delimited(&self) -> (r: SpaceDelimitedScope) {
        let r = SpaceDelimitedScope::new();
        assert(r.uris() =~= Set::<Seq<char>>::empty());
        r
    }

    fn grants(&self, other: &DynSingleScope) -> (r: bool) {
        false
    }
}

/// A set of scopes whose type no longer tells how it was composed.
#[derive(Debug)]
pub struct BoxScope(SpaceDelimitedScope);

impl BoxScope {
    pub closed spec fn wf(&self) -> bool {
        self.0.wf()
    }

    pub closed spec fn uris(&self) -> Set<Seq<char>> {
        self.0.uris()
    }
}

impl Sealed for BoxScope {
}

impl Scope for BoxScope {
    fn with<S>(self, other: S) -> (r: With<Self, S>) {
        With(self, other)
    }

    open spec fn scope_wf(&self) -> bool {
        self.wf()
    }

    open spec fn scope_set(&self) -> Set<Seq<char>> {
        self.uris()
    }

    fn space_delimited(&self) -> (r: SpaceDelimitedScope) {
        self.0.duplicate()
    }

    fn boxed_clone(&self) -> (r: BoxScope) {
        BoxScope(self.0.duplicate())
    }

    fn into_boxed(self) -> (r: BoxScope) {
        self
    }
}

impl Clone for BoxScope {
    fn clone(&self) -> (r: Self)
        ensures
            r.wf() == self.wf(),
            r.uris() == self.uris(),
    {
        BoxScope(self.0.duplicate())
    }
}

/// The union of two scope values.
#[derive(Debug, Clone, Copy, Default, PartialEq, Eq, Hash)]
pub struct With<A, B>(pub A, pub B);

impl<A: Sealed, B: Sealed> Sealed for With<A, B> {
}

impl<A: Scope, B: Scope> With<A, B> {
    /// The union of `a` and `b`.
    pub fn new(a: A, b: B) -> (r: With<A, B>)
        ensures
            r.0 == a,
            r.1 == b,
            r.scope_wf() == (a.scope_wf() && b.scope_wf()),
            r.scope_set() == a.scope_set().union(b.scope_set()),
    {
        With(a, b)
    }
}

impl<A: Scope, B: Scope> Scope for With<A, B> {
    fn with<S>(self, other: S) -> (r: With<Self, S>) {
        With(self, other)
    }

    open spec fn scope_wf(&self) -> bool {
        self.0.scope_wf() && self.1.scope_wf()
    }

    open spec fn scope_set(&self) -> Set<Seq<char>> {
        self.0.scope_set().union(self.1.scope_set())
    }

    fn space_delimited(&self) -> (r: SpaceDelimitedScope) {
        let mut r = self.0.space_delimited();
        let other = self.1.space_delimited();
        r.extend(&other);
        r
    }
}

/// Union is commutative, associative and idempotent: `a` with `b` stands for
/// the same scopes as `b` with `a`, and `a` with `a` for the same as `a`.
pub proof fn lemma_union_laws<A: Scope, B: Scope, C: Scope>(a: A, b: B, c: C)
    ensures
        With(a, b).scope_set() == With(b, a).scope_set(),
        With(a, a).scope_set() == a.scope_set(),
        With(With(a, b), c).scope_set() == With(a, With(b, c)).scope_set(),
{
    assert(With(a, b).scope_set() =~= With(b, a).scope_set());
    assert(With(a, a).scope_set() =~= a.scope_set());
    assert(With(With(a, b), c).scope_set() =~= With(a, With(b, c)).scope_set());
}

} // verus!
