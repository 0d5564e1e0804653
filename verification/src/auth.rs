use vstd::prelude::*;
use vstd::string::StringExecFns;

use crate::password::verifies;
use crate::password::verify_password;
use crate::session::CookieJar;
use crate::session::SessionStore;
use crate::session::has_token;
use crate::session::session_user;
use crate::users::UserStore;
use crate::users::find_by_username;
use crate::users::taken;

verus! {

/// The credentials a login request carries.
pub struct LoginInfo {
    pub username: String,
    pub password: String,
}

/// The structured outcome of a login or logout request: a numeric status
/// class, the status line's short name, and a human-readable message.
/// Authentication failure is an expected outcome, reported here and never
/// raised as a fault.
pub struct LoginMessage {
    pub status_code: i16,
    pub status: String,
    pub message: String,
}

/// Handles one login attempt: the username is looked up, the supplied
/// plaintext is checked against the stored hash, and on success a session
/// bound to the user's id is minted and written into the response cookies,
/// which afterwards resolve to that id. An unknown username and a wrong
/// password both answer 401 Unauthorized — distinguishable messages, one
/// status — and leave the session state untouched.
pub fn login(
    users: &UserStore,
    sessions: &mut SessionStore,
    cookies: &mut CookieJar,
    login_info: &LoginInfo,
) -> (r: LoginMessage)
    requires
        users.wf(),
        old(sessions).wf(),
        old(sessions).next_token() < u64::MAX,
    ensures
        final(sessions).wf(),
        r.status_code == 200 || r.status_code == 401,
        (r.status_code == 200) <==> exists|i: int|
            #![trigger users.users()[i]]
            0 <= i < users.users().len() && users.users()[i].username@ == login_info.username@
                && verifies(login_info.password@, users.users()[i].password@),
        r.status_code == 200 ==> r.status@ == "OK"@ && r.message@ == "Successfully logged in"@,
        r.status_code == 401 ==> r.status@ == "Unauthorized"@ && *final(sessions) == *old(sessions)
            && *final(cookies) == *old(cookies),
        !taken(users.users(), login_info.username@) ==> r.status_code == 401 && r.message@
            == "Couldn't find a user with username "@ + login_info.username@,
        forall|i: int|
            #![trigger users.users()[i]]
            (0 <= i < users.users().len() && users.users()[i].username@ == login_info.username@
                && !verifies(login_info.password@, users.users()[i].password@)) ==> r.status_code
                == 401 && r.message@ == "Wrong password"@,
        forall|i: int|
            #![trigger users.users()[i]]
            (0 <= i < users.users().len() && users.users()[i].username@ == login_info.username@
                && verifies(login_info.password@, users.users()[i].password@)) ==> session_user(
                final(sessions).sessions(),
                *final(cookies),
            ) == Some(users.users()[i].id),
{
    let idx = match find_by_username(&users.table, &login_info.username) {
        Some(i) => i,
        None => {
            return LoginMessage {
                status_code: 401,
                status: String::from_str("Unauthorized"),
                message: String::from_str("Couldn't find a user with username ").concat(
                    login_info.username.as_str(),
                ),
            };
        },
    };
    let row = &users.table.all()[idx];
    proof {
        let s = users.users();
        assert forall|j: int|
            0 <= j < s.len() && (#[trigger] s[j]).username@ == login_info.username@ implies j
            == idx as int by {
            if j < idx as int {
                assert(s[j].username@ != s[idx as int].username@);
            } else if j > idx as int {
                assert(s[idx as int].username@ != s[j].username@);
            }
        }
    }
    if verify_password(&login_info.password, &row.password) {
        let _token = sessions.issue(cookies, row.id);
        LoginMessage {
            status_code: 200,
            status: String::from_str("OK"),
            message: String::from_str("Successfully logged in"),
        }
    } else {
        LoginMessage {
            status_code: 401,
            status: String::from_str("Unauthorized"),
            message: String::from_str("Wrong password"),
        }
    }
}

/// Handles one logout request: with no session cookie present there is
/// nothing to log out of, a 400 Bad Request; otherwise the session is revoked
/// — the cookie leaves the jar and its token is no longer honoured — and the
/// answer is 200. Either way the cookies afterwards resolve to no session.
pub fn logout(sessions: &mut SessionStore, cookies: &mut CookieJar) -> (r: LoginMessage)
    requires
        old(sessions).wf(),
    ensures
        final(sessions).wf(),
        r.status_code == 400 || r.status_code == 200,
        (r.status_code == 400) <==> old(cookies).session is None,
        r.status_code == 400 ==> r.status@ == "Bad Request"@ && r.message@
            == "You don't have that cookie"@ && *final(sessions) == *old(sessions)
            && *final(cookies) == *old(cookies),
        r.status_code == 200 ==> r.status@ == "OK"@ && r.message@ == "Successfully logged out. "@
            && final(cookies).session is None,
        old(cookies).session matches Some(t) ==> !has_token(final(sessions).sessions(), t),
        session_user(final(sessions).sessions(), *final(cookies)) is None,
{
    if cookies.session.is_none() {
        return LoginMessage {
            status_code: 400,
            status: String::from_str("Bad Request"),
            message: String::from_str("You don't have that cookie"),
        };
    }
    sessions.revoke(cookies);
    LoginMessage {
        status_code: 200,
        status: String::from_str("OK"),
        message: String::from_str("Successfully logged out. "),
    }
}

} // verus!
