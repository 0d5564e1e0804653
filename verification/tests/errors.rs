use dollop::{bad_request, forbidden, not_found, unauthorized};

#[test]
fn bad_request_body() {
    let e = bad_request("/users/abc");
    assert_eq!(e.status_code, 400);
    assert_eq!(e.status, "Bad Request");
    assert_eq!(
        e.message,
        "We couldn't get that, try fixing something at your end. Path accessed: /users/abc"
    );
}

#[test]
fn unauthorized_body() {
    let e = unauthorized("/items/");
    assert_eq!(e.status_code, 401);
    assert_eq!(e.status, "Unauthorized");
    assert_eq!(
        e.message,
        "You're not logged in and therefore not allowed to view this item: /items/"
    );
}

#[test]
fn forbidden_body() {
    let e = forbidden("/items/1");
    assert_eq!(e.status_code, 403);
    assert_eq!(e.status, "Forbidden");
    assert_eq!(e.message, "You don't have permissions to view this item: /items/1");
}

#[test]
fn not_found_body() {
    let e = not_found("/nowhere");
    assert_eq!(e.status_code, 404);
    assert_eq!(e.status, "Not Found");
    assert_eq!(e.message, "The requested URL was not found: /nowhere");
}
