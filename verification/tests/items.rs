use dollop::items::{Item, InsertableItem, create, delete, list, read, update};
use dollop::{RepoError, Table};

fn draft(name: &str, price_cents: u64) -> InsertableItem {
    InsertableItem {
        name: String::from(name),
        price_cents,
    }
}

fn empty() -> Table<Item> {
    Table::new()
}

#[test]
fn item_create_then_read_round_trip() {
    let mut store = empty();
    let created = create(&mut store, draft("milk", 149));
    let got = read(&store, created.id).unwrap();
    assert_eq!(got.id, created.id);
    assert_eq!(got.name, "milk");
    assert_eq!(got.price_cents, 149);
}

#[test]
fn list_returns_every_item_in_order() {
    let mut store = empty();
    create(&mut store, draft("milk", 149));
    create(&mut store, draft("eggs", 319));
    let all = list(&store);
    assert_eq!(all.len(), 2);
    assert_eq!(all[0].name, "milk");
    assert_eq!(all[1].name, "eggs");
    assert_eq!(all[0].id, 1);
    assert_eq!(all[1].id, 2);
}

#[test]
fn item_names_need_not_be_unique() {
    let mut store = empty();
    let a = create(&mut store, draft("milk", 149));
    let b = create(&mut store, draft("milk", 155));
    assert_ne!(a.id, b.id);
    assert_eq!(list(&store).len(), 2);
}

#[test]
fn item_read_absent_id_is_none() {
    let store = empty();
    assert!(read(&store, 3).is_none());
}

#[test]
fn update_rewrites_name_and_price() {
    let mut store = empty();
    let created = create(&mut store, draft("milk", 149));
    let r = update(&mut store, created.id, draft("oat milk", 229));
    assert_eq!(r, Ok(created.id));
    let got = read(&store, created.id).unwrap();
    assert_eq!(got.name, "oat milk");
    assert_eq!(got.price_cents, 229);
}

#[test]
fn item_update_nonexistent_id_is_not_found() {
    let mut store = empty();
    assert_eq!(update(&mut store, 9, draft("ghost", 1)), Err(RepoError::NotFound));
}

#[test]
fn item_delete_nonexistent_id_is_not_found() {
    let mut store = empty();
    assert!(delete(&mut store, 9).is_none());
}

#[test]
fn item_delete_then_read_is_absent() {
    let mut store = empty();
    let a = create(&mut store, draft("milk", 149));
    let b = create(&mut store, draft("eggs", 319));
    assert!(delete(&mut store, a.id).is_some());
    assert!(read(&store, a.id).is_none());
    let rest = list(&store);
    assert_eq!(rest.len(), 1);
    assert_eq!(rest[0].id, b.id);
    assert_eq!(rest[0].name, "eggs");
}
