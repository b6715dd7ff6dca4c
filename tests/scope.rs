use google_oauth::scope::{
    all_scope_map, DynSingleScope, NoScope, Scope, SingleScope, SpaceDelimitedScope, With,
};

const CALENDAR: &str = "https://www.googleapis.com/auth/calendar";
const CALENDAR_READONLY: &str = "https://www.googleapis.com/auth/calendar.readonly";
const CALENDAR_EVENTS: &str = "https://www.googleapis.com/auth/calendar.events";
const CALENDAR_EVENTS_READONLY: &str = "https://www.googleapis.com/auth/calendar.events.readonly";

fn set_of(scopes: Vec<DynSingleScope>) -> SpaceDelimitedScope {
    SpaceDelimitedScope::from_scopes(scopes)
}

fn sorted_uris(s: &SpaceDelimitedScope) -> Vec<String> {
    let mut v: Vec<String> = s.as_vec().iter().map(|d| d.as_str().to_string()).collect();
    v.sort();
    v
}

fn four() -> SpaceDelimitedScope {
    set_of(vec![
        DynSingleScope::Calendar,
        DynSingleScope::CalendarReadonly,
        DynSingleScope::CalendarEvents,
        DynSingleScope::CalendarEventsReadonly,
    ])
}

#[test]
fn test_calendar_ser() {
    let payload = format!(r#""{}""#, CALENDAR);
    let ser = serde_json::to_string(DynSingleScope::Calendar.as_str()).unwrap();
    assert_eq!(ser, payload);
}

#[test]
fn test_calendar_de() {
    let payload = format!(r#""{}""#, CALENDAR);
    let s: String = serde_json::from_str(&payload).unwrap();
    let scope = DynSingleScope::from_uri(&s).unwrap();
    assert_eq!(scope, DynSingleScope::Calendar);
}

#[test]
fn test_dyn_single_scope_ser() {
    let payload = format!(r#""{}""#, CALENDAR);
    let scope = DynSingleScope::Calendar.as_dyn();
    let ser = serde_json::to_string(scope.as_str()).unwrap();
    assert_eq!(ser, payload);
}

#[test]
fn test_dyn_single_scope_de() {
    let payload = format!(r#""{}""#, CALENDAR);
    let s: String = serde_json::from_str(&payload).unwrap();
    let scope = DynSingleScope::from_uri(&s).unwrap();
    assert_eq!(scope, DynSingleScope::Calendar.as_dyn());
}

#[test]
fn test_space_delimited_scope_ser() {
    let payload = format!(
        r#""{} {} {} {}""#,
        CALENDAR, CALENDAR_READONLY, CALENDAR_EVENTS, CALENDAR_EVENTS_READONLY
    );
    let scope = four();
    let ser = serde_json::to_string(&scope.to_wire_string()).unwrap();
    assert_eq!(ser, payload);
}

#[test]
fn test_space_delimited_scope_de() {
    let payload = format!(
        r#""{} {} {} {}""#,
        CALENDAR, CALENDAR_READONLY, CALENDAR_EVENTS, CALENDAR_EVENTS_READONLY
    );
    let scope = four();
    let s: String = serde_json::from_str(&payload).unwrap();
    let de = SpaceDelimitedScope::parse_wire_string(&s).unwrap();
    assert_eq!(de.as_vec(), scope.as_vec());
}

#[test]
fn union_is_commutative() {
    let a = set_of(vec![DynSingleScope::Calendar, DynSingleScope::CalendarEvents]);
    let b = set_of(vec![DynSingleScope::CalendarEvents, DynSingleScope::CalendarReadonly]);
    let ab = a.union(&b);
    let ba = b.union(&a);
    assert_eq!(sorted_uris(&ab), sorted_uris(&ba));
    assert_eq!(ab.len(), 3);
    let wa = With::new(a.clone(), b.clone()).space_delimited();
    let wb = With::new(b, a).space_delimited();
    assert_eq!(sorted_uris(&wa), sorted_uris(&wb));
}

#[test]
fn union_is_idempotent() {
    let a = set_of(vec![DynSingleScope::Calendar, DynSingleScope::CalendarReadonly]);
    let aa = a.union(&a);
    assert_eq!(aa.as_vec(), a.as_vec());
    let w = With::new(DynSingleScope::Calendar, DynSingleScope::Calendar).space_delimited();
    assert_eq!(w.as_vec(), &vec![DynSingleScope::Calendar]);
}

#[test]
fn set_operations_keep_order() {
    let a = set_of(vec![DynSingleScope::CalendarEvents, DynSingleScope::Calendar]);
    let b = set_of(vec![
        DynSingleScope::CalendarReadonly,
        DynSingleScope::Calendar,
        DynSingleScope::CalendarAddonsExecute,
    ]);
    assert_eq!(
        a.union(&b).as_vec(),
        &vec![
            DynSingleScope::CalendarEvents,
            DynSingleScope::Calendar,
            DynSingleScope::CalendarReadonly,
            DynSingleScope::CalendarAddonsExecute,
        ]
    );
    let mut c = b.clone();
    c.extend(&a);
    assert_eq!(c.len(), 4);
    assert_eq!(c.as_vec()[3], DynSingleScope::CalendarEvents);
}

#[test]
fn union_keeps_construction_order() {
    let w = With::new(
        With::new(DynSingleScope::CalendarEvents, NoScope),
        DynSingleScope::Calendar,
    );
    assert_eq!(
        w.space_delimited().to_wire_string(),
        format!("{} {}", CALENDAR_EVENTS, CALENDAR)
    );
}

#[test]
fn wire_round_trip() {
    let s = four();
    let back = SpaceDelimitedScope::parse_wire_string(&s.to_wire_string()).unwrap();
    assert_eq!(sorted_uris(&back), sorted_uris(&s));
    let one = set_of(vec![DynSingleScope::CalendarAddonsExecute]);
    let back = SpaceDelimitedScope::parse_wire_string(&one.to_wire_string()).unwrap();
    assert_eq!(back.as_vec(), one.as_vec());
}

#[test]
fn unknown_scope_rejected_on_strict_parse() {
    let err = SpaceDelimitedScope::parse_wire_string("calendar bogus.scope").unwrap_err();
    assert_eq!(err.token, "bogus.scope");
    let input = format!("{} bogus.scope", CALENDAR);
    let err = SpaceDelimitedScope::parse_wire_string(&input).unwrap_err();
    assert_eq!(err.token, "bogus.scope");
}

#[test]
fn strict_parse_accepts_short_names() {
    let s = SpaceDelimitedScope::parse_wire_string("calendar calendar.events.readonly").unwrap();
    assert_eq!(
        s.as_vec(),
        &vec![DynSingleScope::Calendar, DynSingleScope::CalendarEventsReadonly]
    );
    assert_eq!(
        s.to_wire_string(),
        format!("{} {}", CALENDAR, CALENDAR_EVENTS_READONLY)
    );
}

#[test]
fn strict_parse_of_empty_string_fails() {
    let err = SpaceDelimitedScope::parse_wire_string("").unwrap_err();
    assert_eq!(err.token, "");
}

#[test]
fn strict_parse_drops_repeats() {
    let input = format!("{} {} {}", CALENDAR, CALENDAR_READONLY, CALENDAR);
    let s = SpaceDelimitedScope::parse_wire_string(&input).unwrap();
    assert_eq!(
        s.as_vec(),
        &vec![DynSingleScope::Calendar, DynSingleScope::CalendarReadonly]
    );
}

#[test]
fn lenient_parse_keeps_unknown_scopes() {
    let input = format!("{} openid  email", CALENDAR);
    let s = SpaceDelimitedScope::parse_granted(&input);
    assert_eq!(s.len(), 3);
    assert!(s.grants(&DynSingleScope::Calendar));
    assert!(s.grants(&DynSingleScope::Unknown("openid".to_string())));
    assert!(!s.grants(&DynSingleScope::CalendarReadonly));
    assert_eq!(s.to_wire_string(), format!("{} openid email", CALENDAR));
    assert_eq!(SpaceDelimitedScope::parse_granted("").len(), 0);
}

#[test]
fn grants_and_scope() {
    assert!(!NoScope.grants(&DynSingleScope::Calendar));
    assert!(NoScope.scope().is_empty());
    assert!(DynSingleScope::Calendar.grants(&DynSingleScope::Calendar));
    assert!(!DynSingleScope::Calendar.grants(&DynSingleScope::CalendarReadonly));
    let w = With::new(DynSingleScope::Calendar, DynSingleScope::CalendarReadonly);
    assert!(w.grants(&DynSingleScope::CalendarReadonly));
    assert_eq!(w.scope().len(), 2);
    let boxed = w.into_boxed();
    assert!(boxed.grants(&DynSingleScope::Calendar));
    assert!(!boxed.grants(&DynSingleScope::CalendarEvents));
    assert_eq!(boxed.clone().space_delimited().len(), 2);
}

#[test]
fn single_scope_uris() {
    assert_eq!(DynSingleScope::CalendarReadonly.as_str(), CALENDAR_READONLY);
    assert!(DynSingleScope::Calendar.equals(&DynSingleScope::Calendar));
    assert!(!DynSingleScope::Calendar.equals(&DynSingleScope::CalendarEvents));
    assert_eq!(DynSingleScope::from_uri("calendar"), None);
    let unknown = DynSingleScope::from_token("profile");
    assert_eq!(unknown.as_str(), "profile");
    assert_eq!(DynSingleScope::from_token(CALENDAR), DynSingleScope::Calendar);
}

#[test]
fn catalog_table() {
    let map = all_scope_map();
    assert_eq!(map.len(), 6);
    for (uri, scope) in &map {
        assert_eq!(*uri, scope.as_str());
        assert_eq!(DynSingleScope::from_uri(uri).as_ref(), Some(scope));
    }
    assert_eq!(
        map[5].0,
        "https://www.googleapis.com/auth/calendar.addons.execute"
    );
}

#[test]
fn scope_str_lists_uris_once() {
    let w = With::new(
        With::new(DynSingleScope::Calendar, DynSingleScope::CalendarEvents),
        DynSingleScope::Calendar,
    );
    let mut uris = w.scope_str();
    uris.sort();
    assert_eq!(uris, vec![CALENDAR.to_string(), CALENDAR_EVENTS.to_string()]);
    assert!(NoScope.scope_str().is_empty());
}

#[test]
fn with_combines_scopes() {
    let w = DynSingleScope::Calendar
        .with(NoScope)
        .with(DynSingleScope::CalendarEvents);
    assert_eq!(
        w.space_delimited().to_wire_string(),
        format!("{} {}", CALENDAR, CALENDAR_EVENTS)
    );
    let s = set_of(vec![DynSingleScope::CalendarReadonly]).with(DynSingleScope::Calendar);
    assert_eq!(s.scope().len(), 2);
}

#[test]
fn lenient_parse_keeps_first_occurrence_order() {
    let input = format!("email {} openid email {}", CALENDAR_READONLY, CALENDAR_READONLY);
    let s = SpaceDelimitedScope::parse_granted(&input);
    let uris: Vec<&str> = s.as_vec().iter().map(|d| d.as_str()).collect();
    assert_eq!(uris, vec!["email", CALENDAR_READONLY, "openid"]);
}
