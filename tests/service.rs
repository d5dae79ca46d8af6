use user_service::handler::{plan, respond, Body, Outcome, Request, Response, Statement};
use user_service::id::parse_id;
use user_service::table::{handle, UserTable};
use user_service::user::User;

fn body_user(name: &str, email: &str) -> User {
    User::new(None, name.to_string(), email.to_string())
}

fn create(t: &mut UserTable, name: &str, email: &str) -> Response {
    handle(t, Request::CreateUser(body_user(name, email)))
}

fn record_of(r: &Response) -> (Option<i32>, String, String) {
    match &r.body {
        Body::Record(u) => (u.id, u.name.clone(), u.email.clone()),
        _ => panic!("expected a record"),
    }
}

fn listed(t: &mut UserTable) -> Vec<(Option<i32>, String, String)> {
    let r = handle(t, Request::ListUsers);
    assert_eq!(r.status, 200);
    match r.body {
        Body::Records(v) => v.into_iter().map(|u| (u.id, u.name, u.email)).collect(),
        _ => panic!("expected records"),
    }
}

fn triple(id: i32, name: &str, email: &str) -> (Option<i32>, String, String) {
    (Some(id), name.to_string(), email.to_string())
}

#[test]
fn parse_id_reads_signed_decimals() {
    assert_eq!(parse_id("7"), Some(7));
    assert_eq!(parse_id("-12"), Some(-12));
    assert_eq!(parse_id("+3"), Some(3));
    assert_eq!(parse_id("007"), Some(7));
    assert_eq!(parse_id("2147483647"), Some(i32::MAX));
    assert_eq!(parse_id("-2147483648"), Some(i32::MIN));
}

#[test]
fn parse_id_refuses_other_text() {
    assert_eq!(parse_id(""), None);
    assert_eq!(parse_id("abc"), None);
    assert_eq!(parse_id("-"), None);
    assert_eq!(parse_id(" 1"), None);
    assert_eq!(parse_id("1.5"), None);
    assert_eq!(parse_id("2147483648"), None);
}

#[test]
fn end_to_end_example() {
    let mut t = UserTable::new();
    let r = create(&mut t, "Ann", "ann@x.com");
    assert_eq!(r.status, 201);
    assert_eq!(record_of(&r), triple(1, "Ann", "ann@x.com"));

    let r = handle(&mut t, Request::GetUser("1".to_string()));
    assert_eq!(r.status, 200);
    assert_eq!(record_of(&r), triple(1, "Ann", "ann@x.com"));

    let r = handle(&mut t, Request::UpdateUser("1".to_string(), body_user("Ann B", "ann@x.com")));
    assert_eq!(r.status, 200);
    assert_eq!(record_of(&r), triple(1, "Ann B", "ann@x.com"));

    let r = handle(&mut t, Request::DeleteUser("1".to_string()));
    assert_eq!(r.status, 204);
    assert!(matches!(r.body, Body::Empty));

    let r = handle(&mut t, Request::GetUser("1".to_string()));
    assert_eq!(r.status, 404);
    assert!(matches!(r.body, Body::NotFound(1)));
}

#[test]
fn create_then_get_round_trips() {
    let mut t = UserTable::new();
    create(&mut t, "Bo", "bo@y.org");
    let r = create(&mut t, "Cy", "cy@z.net");
    let (id, _, _) = record_of(&r);
    let id = id.unwrap();
    let r = handle(&mut t, Request::GetUser(id.to_string()));
    assert_eq!(r.status, 200);
    assert_eq!(record_of(&r), triple(id, "Cy", "cy@z.net"));
}

#[test]
fn create_ignores_body_id() {
    let mut t = UserTable::new();
    let r = handle(&mut t, Request::CreateUser(User::new(Some(99), "Di".to_string(), "di@d.io".to_string())));
    assert_eq!(record_of(&r), triple(1, "Di", "di@d.io"));
}

#[test]
fn unknown_id_is_not_found_everywhere() {
    let mut t = UserTable::new();
    create(&mut t, "Ann", "ann@x.com");
    let r = handle(&mut t, Request::GetUser("42".to_string()));
    assert_eq!(r.status, 404);
    assert!(matches!(r.body, Body::NotFound(42)));
    let r = handle(&mut t, Request::UpdateUser("42".to_string(), body_user("X", "x@x")));
    assert_eq!(r.status, 404);
    assert!(matches!(r.body, Body::Empty));
    let r = handle(&mut t, Request::DeleteUser("42".to_string()));
    assert_eq!(r.status, 404);
    assert!(matches!(r.body, Body::NotFound(42)));
    assert_eq!(listed(&mut t), vec![triple(1, "Ann", "ann@x.com")]);
}

#[test]
fn malformed_id_is_server_error() {
    let mut t = UserTable::new();
    create(&mut t, "Ann", "ann@x.com");
    for text in ["abc", "1x", "", "99999999999"] {
        let reqs = vec![
            Request::GetUser(text.to_string()),
            Request::UpdateUser(text.to_string(), body_user("X", "x@x")),
            Request::DeleteUser(text.to_string()),
        ];
        for req in reqs {
            let r = handle(&mut t, req);
            assert_eq!(r.status, 500);
            match r.body {
                Body::InvalidId(s) => assert_eq!(s, text),
                _ => panic!("expected the segment to be named"),
            }
        }
    }
    assert_eq!(listed(&mut t), vec![triple(1, "Ann", "ann@x.com")]);
}

#[test]
fn delete_twice_is_not_idempotent() {
    let mut t = UserTable::new();
    create(&mut t, "Ann", "ann@x.com");
    let r = handle(&mut t, Request::DeleteUser("1".to_string()));
    assert_eq!(r.status, 204);
    let r = handle(&mut t, Request::DeleteUser("1".to_string()));
    assert_eq!(r.status, 404);
}

#[test]
fn created_ids_are_distinct_and_increasing() {
    let mut t = UserTable::new();
    let mut ids = Vec::new();
    for k in 0..5 {
        let r = create(&mut t, &format!("u{}", k), "same@x.com");
        assert_eq!(r.status, 201);
        ids.push(record_of(&r).0.unwrap());
    }
    assert_eq!(ids, vec![1, 2, 3, 4, 5]);
    handle(&mut t, Request::DeleteUser("5".to_string()));
    let r = create(&mut t, "again", "a@x.com");
    assert_eq!(record_of(&r).0, Some(6));
}

#[test]
fn list_is_exactly_the_live_records() {
    let mut t = UserTable::new();
    assert_eq!(listed(&mut t), vec![]);
    create(&mut t, "A", "a@x");
    create(&mut t, "B", "b@x");
    create(&mut t, "C", "c@x");
    handle(&mut t, Request::DeleteUser("2".to_string()));
    let mut got = listed(&mut t);
    got.sort();
    assert_eq!(got, vec![triple(1, "A", "a@x"), triple(3, "C", "c@x")]);
}

#[test]
fn plan_chooses_statements() {
    assert!(matches!(plan(Request::ListUsers), Ok(Statement::SelectAll)));
    match plan(Request::CreateUser(User::new(Some(5), "N".to_string(), "e@x".to_string()))) {
        Ok(Statement::Insert { name, email }) => {
            assert_eq!(name, "N");
            assert_eq!(email, "e@x");
        }
        _ => panic!("expected an insert"),
    }
    assert!(matches!(plan(Request::GetUser("-4".to_string())), Ok(Statement::SelectById { id: -4 })));
    match plan(Request::UpdateUser("8".to_string(), body_user("N", "e"))) {
        Ok(Statement::Update { id, name, email }) => {
            assert_eq!(id, 8);
            assert_eq!(name, "N");
            assert_eq!(email, "e");
        }
        _ => panic!("expected an update"),
    }
    assert!(matches!(plan(Request::DeleteUser("3".to_string())), Ok(Statement::DeleteById { id: 3 })));
    match plan(Request::DeleteUser("x3".to_string())) {
        Err(r) => {
            assert_eq!(r.status, 500);
            assert!(matches!(r.body, Body::InvalidId(ref s) if s == "x3"));
        }
        _ => panic!("expected a rejection"),
    }
}

#[test]
fn respond_maps_failures_to_server_error() {
    let stmts = vec![
        Statement::SelectAll,
        Statement::Insert { name: "a".to_string(), email: "b".to_string() },
        Statement::SelectById { id: 1 },
        Statement::Update { id: 1, name: "a".to_string(), email: "b".to_string() },
        Statement::DeleteById { id: 1 },
    ];
    for s in stmts {
        let r = respond(s, Outcome::Failed);
        assert_eq!(r.status, 500);
        assert!(matches!(r.body, Body::Failure));
    }
    let r = respond(Statement::SelectAll, Outcome::Affected(1));
    assert_eq!(r.status, 500);
}

#[test]
fn respond_maps_outcomes() {
    let r = respond(Statement::SelectAll, Outcome::Rows(vec![]));
    assert_eq!(r.status, 200);
    assert!(matches!(r.body, Body::Records(ref v) if v.is_empty()));

    let r = respond(Statement::Insert { name: "a".to_string(), email: "b".to_string() }, Outcome::Inserted(9));
    assert_eq!(r.status, 201);
    assert_eq!(record_of(&r), triple(9, "a", "b"));

    let r = respond(Statement::SelectById { id: 4 }, Outcome::Rows(vec![]));
    assert_eq!(r.status, 404);
    assert!(matches!(r.body, Body::NotFound(4)));

    let row = User::new(Some(4), "a".to_string(), "b".to_string());
    let r = respond(Statement::SelectById { id: 4 }, Outcome::Rows(vec![row]));
    assert_eq!(r.status, 200);
    assert_eq!(record_of(&r), triple(4, "a", "b"));

    let upd = || Statement::Update { id: 4, name: "n".to_string(), email: "m".to_string() };
    let r = respond(upd(), Outcome::Affected(0));
    assert_eq!(r.status, 404);
    assert!(matches!(r.body, Body::Empty));
    let r = respond(upd(), Outcome::Affected(2));
    assert_eq!(r.status, 200);
    assert_eq!(record_of(&r), triple(4, "n", "m"));

    let r = respond(Statement::DeleteById { id: 4 }, Outcome::Affected(0));
    assert_eq!(r.status, 404);
    assert!(matches!(r.body, Body::NotFound(4)));
    let r = respond(Statement::DeleteById { id: 4 }, Outcome::Affected(1));
    assert_eq!(r.status, 204);
    assert!(matches!(r.body, Body::Empty));
}
