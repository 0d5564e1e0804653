use dollop::users::{create, delete, list, read, update};
use dollop::{InsertableUser, RepoError, UserStore};

fn draft(username: &str, password: &str) -> InsertableUser {
    InsertableUser {
        username: String::from(username),
        password: String::from(password),
    }
}

#[test]
fn create_then_read_round_trip() {
    let mut store = UserStore::new();
    let created = create(&mut store, draft("alice", "secret")).unwrap();
    let got = read(&store, created.id).unwrap();
    assert_eq!(got.id, created.id);
    assert_eq!(got.username, "alice");
}

#[test]
fn created_ids_are_assigned_in_order() {
    let mut store = UserStore::new();
    let a = create(&mut store, draft("alice", "pw")).unwrap();
    let b = create(&mut store, draft("bob", "pw")).unwrap();
    assert_eq!(a.id, 1);
    assert_eq!(b.id, 2);
}

#[test]
fn duplicate_username_is_rejected() {
    let mut store = UserStore::new();
    create(&mut store, draft("alice", "first")).unwrap();
    let second = create(&mut store, draft("alice", "second"));
    assert_eq!(second.err(), Some(RepoError::UsernameTaken));
    assert_eq!(list(&store).len(), 1);
}

#[test]
fn list_projects_every_user() {
    let mut store = UserStore::new();
    create(&mut store, draft("alice", "pw")).unwrap();
    create(&mut store, draft("bob", "pw")).unwrap();
    let all = list(&store);
    assert_eq!(all.len(), 2);
    assert_eq!(all[0].username, "alice");
    assert_eq!(all[1].username, "bob");
    assert_eq!(all[0].id, 1);
    assert_eq!(all[1].id, 2);
}

#[test]
fn read_absent_id_is_none() {
    let store = UserStore::new();
    assert!(read(&store, 7).is_none());
}

#[test]
fn update_rewrites_username_and_password() {
    let mut store = UserStore::new();
    let created = create(&mut store, draft("alice", "old pw")).unwrap();
    let r = update(&mut store, created.id, draft("alicia", "new pw"));
    assert_eq!(r, Ok(created.id));
    let got = read(&store, created.id).unwrap();
    assert_eq!(got.username, "alicia");
}

#[test]
fn update_nonexistent_id_is_not_found() {
    let mut store = UserStore::new();
    let r = update(&mut store, 42, draft("ghost", "pw"));
    assert_eq!(r, Err(RepoError::NotFound));
}

#[test]
fn update_to_taken_username_is_rejected() {
    let mut store = UserStore::new();
    let a = create(&mut store, draft("alice", "pw")).unwrap();
    create(&mut store, draft("bob", "pw")).unwrap();
    let r = update(&mut store, a.id, draft("bob", "pw"));
    assert_eq!(r, Err(RepoError::UsernameTaken));
}

#[test]
fn delete_nonexistent_id_is_not_found() {
    let mut store = UserStore::new();
    assert!(delete(&mut store, 42).is_none());
}

#[test]
fn delete_then_read_is_absent() {
    let mut store = UserStore::new();
    let created = create(&mut store, draft("alice", "pw")).unwrap();
    assert!(delete(&mut store, created.id).is_some());
    assert!(read(&store, created.id).is_none());
    assert_eq!(list(&store).len(), 0);
}

#[test]
fn deleted_username_can_be_reused_under_a_fresh_id() {
    let mut store = UserStore::new();
    let first = create(&mut store, draft("alice", "pw")).unwrap();
    delete(&mut store, first.id).unwrap();
    let second = create(&mut store, draft("alice", "pw")).unwrap();
    assert_ne!(second.id, first.id);
}
