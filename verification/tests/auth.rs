use dollop::auth::{login, logout};
use dollop::users;
use dollop::{CookieJar, InsertableUser, LoginInfo, rocket};

fn app_with_user(username: &str, password: &str) -> (dollop::App, i32) {
    let mut app = rocket();
    let draft = InsertableUser {
        username: String::from(username),
        password: String::from(password),
    };
    let created = users::create(&mut app.users, draft).unwrap();
    (app, created.id)
}

#[test]
fn login_unknown_user_is_unauthorized() {
    let mut app = rocket();
    let mut jar = CookieJar::new();
    let info = LoginInfo {
        username: String::from("nobody"),
        password: String::from("whatever"),
    };
    let r = login(&app.users, &mut app.sessions, &mut jar, &info);
    assert_eq!(r.status_code, 401);
    assert_eq!(r.status, "Unauthorized");
    assert_eq!(r.message, "Couldn't find a user with username nobody");
    assert!(jar.session.is_none());
}

#[test]
fn login_wrong_password_is_unauthorized_with_same_status() {
    let (mut app, _id) = app_with_user("alice", "right password");
    let mut jar = CookieJar::new();
    let info = LoginInfo {
        username: String::from("alice"),
        password: String::from("wrong password"),
    };
    let r = login(&app.users, &mut app.sessions, &mut jar, &info);
    assert_eq!(r.status_code, 401);
    assert_eq!(r.status, "Unauthorized");
    assert_eq!(r.message, "Wrong password");
    assert!(jar.session.is_none());

    let info2 = LoginInfo {
        username: String::from("bob"),
        password: String::from("right password"),
    };
    let r2 = login(&app.users, &mut app.sessions, &mut jar, &info2);
    assert_eq!(r2.status_code, r.status_code);
    assert_ne!(r2.message, r.message);
}

#[test]
fn login_issues_session_resolving_to_the_user() {
    let (mut app, id) = app_with_user("alice", "secret");
    let mut jar = CookieJar::new();
    let info = LoginInfo {
        username: String::from("alice"),
        password: String::from("secret"),
    };
    let r = login(&app.users, &mut app.sessions, &mut jar, &info);
    assert_eq!(r.status_code, 200);
    assert_eq!(r.status, "OK");
    assert_eq!(r.message, "Successfully logged in");
    assert!(jar.session.is_some());
    assert_eq!(app.sessions.current_user_id(&jar), Some(id));
}

#[test]
fn logout_without_session_is_bad_request() {
    let mut app = rocket();
    let mut jar = CookieJar::new();
    let r = logout(&mut app.sessions, &mut jar);
    assert_eq!(r.status_code, 400);
    assert_eq!(r.status, "Bad Request");
    assert_eq!(r.message, "You don't have that cookie");
}

#[test]
fn logout_after_login_clears_the_session() {
    let (mut app, id) = app_with_user("alice", "secret");
    let mut jar = CookieJar::new();
    let info = LoginInfo {
        username: String::from("alice"),
        password: String::from("secret"),
    };
    let r = login(&app.users, &mut app.sessions, &mut jar, &info);
    assert_eq!(r.status_code, 200);
    assert_eq!(app.sessions.current_user_id(&jar), Some(id));

    let out = logout(&mut app.sessions, &mut jar);
    assert_eq!(out.status_code, 200);
    assert_eq!(out.status, "OK");
    assert_eq!(out.message, "Successfully logged out. ");
    assert!(jar.session.is_none());
    assert_eq!(app.sessions.current_user_id(&jar), None);
}

#[test]
fn two_clients_hold_independent_sessions() {
    let (mut app, id_a) = app_with_user("alice", "pw-a");
    let draft = InsertableUser {
        username: String::from("bob"),
        password: String::from("pw-b"),
    };
    let id_b = users::create(&mut app.users, draft).unwrap().id;

    let mut jar_a = CookieJar::new();
    let mut jar_b = CookieJar::new();
    let r_a = login(
        &app.users,
        &mut app.sessions,
        &mut jar_a,
        &LoginInfo { username: String::from("alice"), password: String::from("pw-a") },
    );
    let r_b = login(
        &app.users,
        &mut app.sessions,
        &mut jar_b,
        &LoginInfo { username: String::from("bob"), password: String::from("pw-b") },
    );
    assert_eq!(r_a.status_code, 200);
    assert_eq!(r_b.status_code, 200);
    assert_eq!(app.sessions.current_user_id(&jar_a), Some(id_a));
    assert_eq!(app.sessions.current_user_id(&jar_b), Some(id_b));

    let out = logout(&mut app.sessions, &mut jar_a);
    assert_eq!(out.status_code, 200);
    assert_eq!(app.sessions.current_user_id(&jar_a), None);
    assert_eq!(app.sessions.current_user_id(&jar_b), Some(id_b));
}
