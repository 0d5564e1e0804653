//! A small shopping-list service core: username/password authentication with
//! salted one-way hashing, opaque session tokens carried in a client cookie,
//! and per-resource stores offering create / list / read / update / delete
//! over records with unique, system-assigned identifiers.

use vstd::prelude::*;

pub mod auth;
mod errors;
pub mod items;
mod password;
mod session;
mod store;
pub mod users;

pub use auth::LoginInfo;
pub use auth::LoginMessage;
pub use store::Record;
pub use store::Table;
pub use store::has_id;
pub use store::unique_ids;
pub use password::HashingFailure;
pub use password::hash_password;
pub use password::verifies;
pub use password::verify_password;
pub use session::CookieJar;
pub use session::Session;
pub use session::SessionStore;
pub use session::has_token;
pub use session::session_user;
pub use session::token_user;
pub use session::unique_tokens;
pub use errors::ErrorMessage;
pub use errors::RepoError;
pub use errors::bad_request;
pub use errors::unauthorized;
pub use errors::forbidden;
pub use errors::not_found;
pub use users::InsertableUser;
pub use users::QueryableUser;
pub use users::User;
pub use users::UserStore;

verus! {

/// The whole service's state: the user and item stores and the session table.
/// All durable state lives here; each request handler works on it through the
/// operations of the modules above, one atomic operation at a time.
pub struct App {
    pub users: users::UserStore,
    pub items: store::Table<items::Item>,
    pub sessions: session::SessionStore,
}

/// Launch-time assembly: the state a fresh service process serves from —
/// empty user and item stores, and a session table with nothing minted.
pub fn rocket() -> (app: App)
    ensures
        app.users.wf(),
        app.items.wf(),
        app.sessions.wf(),
        app.users.users().len() == 0,
        app.items.rows().len() == 0,
        app.sessions.sessions().len() == 0,
        app.users.table.next() == 1,
        app.items.next() == 1,
        app.sessions.next_token() == 0,
{
    App {
        users: users::UserStore::new(),
        items: store::Table::new(),
        sessions: session::SessionStore::new(),
    }
}

} // verus!
