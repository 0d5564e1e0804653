use vstd::prelude::*;

verus! {

/// One minted session: an opaque token bound to the user id it authenticates.
#[derive(Clone, Copy)]
pub struct Session {
    pub token: u64,
    pub user_id: i32,
}

/// The client-held cookie storage, as the core sees it: at most one session
/// cookie, carrying a token by value. The transport keeps the stored value
/// tamper-evident; the core honours a token only while the table below does.
#[derive(Clone, Copy)]
pub struct CookieJar {
    pub session: Option<u64>,
}

impl CookieJar {
    /// A jar with no session cookie in it.
    pub fn new() -> (c: CookieJar)
        ensures
            c.session is None,
    {
        CookieJar { session: None }
    }
}

/// Whether some minted session carries `token`.
pub open spec fn has_token(sessions: Seq<Session>, token: u64) -> bool {
    exists|i: int| #![trigger sessions[i]] 0 <= i < sessions.len() && sessions[i].token == token
}

/// The minted tokens are pairwise distinct.
pub open spec fn unique_tokens(sessions: Seq<Session>) -> bool {
    forall|i: int, j: int|
        #![trigger sessions[i], sessions[j]]
        0 <= i < j < sessions.len() ==> sessions[i].token != sessions[j].token
}

/// The user id a token resolves to: that of the minted session carrying it,
/// or nothing when no session does.
pub open spec fn token_user(sessions: Seq<Session>, token: u64) -> Option<i32> {
    if has_token(sessions, token) {
        Some(
            sessions[choose|i: int|
                0 <= i < sessions.len() && #[trigger] sessions[i].token == token].user_id,
        )
    } else {
        None
    }
}

/// The user id a request's cookies resolve to: nothing without a session
/// cookie, and nothing for a token the table no longer honours.
pub open spec fn session_user(sessions: Seq<Session>, cookies: CookieJar) -> Option<i32> {
    match cookies.session {
        Some(t) => token_user(sessions, t),
        None => None,
    }
}

/// The server-side session table: the sessions currently honoured, under
/// tokens drawn from a counter and never reused.
pub struct SessionStore {
    minted: Vec<Session>,
    next_token: u64,
}

impl SessionStore {
    /// The sessions currently honoured.
    pub closed spec fn sessions(&self) -> Seq<Session> {
        self.minted@
    }

    /// The token the next issued session will carry.
    pub closed spec fn next_token(&self) -> u64 {
        self.next_token
    }

    /// Tokens are pairwise distinct and below the counter, so a fresh token
    /// never collides with an honoured one.
    pub open spec fn wf(&self) -> bool {
        &&& unique_tokens(self.sessions())
        &&& forall|i: int|
            0 <= i < self.sessions().len() ==> #[trigger] self.sessions()[i].token
                < self.next_token()
    }

    /// A table with nothing minted.
    pub fn new() -> (s: SessionStore)
        ensures
            s.wf(),
            s.sessions().len() == 0,
            s.next_token() == 0,
    {
        SessionStore { minted: Vec::new(), next_token: 0 }
    }

    /// The value of the token counter, for callers that must check it has
    /// room left before issuing.
    pub fn upcoming_token(&self) -> (t: u64)
        ensures
            t == self.next_token(),
    {
        self.next_token
    }

    /// Mints a session bound to `user_id`, writes its token into the response
    /// cookies, and honours it from now on: the cookie resolves to `user_id`.
    pub fn issue(&mut self, cookies: &mut CookieJar, user_id: i32) -> (token: u64)
        requires
            old(self).wf(),
            old(self).next_token() < u64::MAX,
        ensures
            final(self).wf(),
            token == old(self).next_token(),
            !has_token(old(self).sessions(), token),
            final(cookies).session == Some(token),
            final(self).sessions() == old(self).sessions().push(Session { token, user_id }),
            final(self).next_token() == old(self).next_token() + 1,
            session_user(final(self).sessions(), *final(cookies)) == Some(user_id),
    {
        let token = self.next_token;
        self.minted.push(Session { token, user_id });
        self.next_token = self.next_token + 1;
        cookies.session = Some(token);
        proof {
            let s = self.sessions();
            let last = s.len() - 1;
            assert(s[last].token == token);
            assert(has_token(s, token));
            let w = choose|i: int| 0 <= i < s.len() && #[trigger] s[i].token == token;
            if w != last {
                assert(old(self).sessions()[w].token < token);
            }
            assert(token_user(s, token) == Some(user_id));
            assert forall|i: int, j: int| 0 <= i < j < s.len() implies (#[trigger] s[i]).token != (
            #[trigger] s[j]).token by {
                if j == last {
                    assert(old(self).sessions()[i].token < token);
                }
            }
        }
        token
    }

    /// The user id the request's cookies resolve to: the binding of the
    /// carried token, if the table still honours it.
    pub fn current_user_id(&self, cookies: &CookieJar) -> (r: Option<i32>)
        requires
            self.wf(),
        ensures
            r == session_user(self.sessions(), *cookies),
    {
        let t = match cookies.session {
            Some(t) => t,
            None => {
                return None;
            },
        };
        let n = self.minted.len();
        let mut i: usize = 0;
        while i < n
            invariant
                i <= n,
                n == self.sessions().len(),
                self.wf(),
                cookies.session == Some(t),
                forall|k: int| 0 <= k < i ==> (#[trigger] self.sessions()[k]).token != t,
            decreases n - i,
        {
            if self.minted[i].token == t {
                proof {
                    let s = self.sessions();
                    assert(has_token(s, t));
                    let w = choose|k: int| 0 <= k < s.len() && #[trigger] s[k].token == t;
                    if w != i as int {
                        assert(s[w].token != s[i as int].token);
                    }
                }
                return Some(self.minted[i].user_id);
            }
            i = i + 1;
        }
        proof {
            assert(!has_token(self.sessions(), t));
        }
        None
    }

    /// Revokes the session the request's cookies carry: the cookie leaves the
    /// jar, and the table stops honouring its token, so later reads resolve to
    /// no session. With no session cookie present, nothing changes.
    pub fn revoke(&mut self, cookies: &mut CookieJar)
        requires
            old(self).wf(),
        ensures
            final(self).wf(),
            final(cookies).session is None,
            final(self).next_token() == old(self).next_token(),
            old(cookies).session is None ==> *final(self) == *old(self),
            old(cookies).session matches Some(t) ==> !has_token(final(self).sessions(), t),
            old(cookies).session matches Some(t) && !has_token(old(self).sessions(), t)
                ==> *final(self) == *old(self),
            old(cookies).session matches Some(t) && has_token(old(self).sessions(), t)
                ==> final(self).sessions().len() + 1 == old(self).sessions().len(),
            old(cookies).session is Some && has_token(
                old(self).sessions(),
                old(cookies).session->0,
            ) ==> exists|k: int|
                #![trigger old(self).sessions()[k]]
                0 <= k < old(self).sessions().len() && old(self).sessions()[k].token == old(
                    cookies,
                ).session->0 && final(self).sessions() == old(self).sessions().remove(k),
            session_user(final(self).sessions(), *final(cookies)) is None,
    {
        let t = match cookies.session {
            Some(t) => t,
            None => {
                return ;
            },
        };
        cookies.session = None;
        let n = self.minted.len();
        let mut i: usize = 0;
        while i < n
            invariant
                i <= n,
                n == self.sessions().len(),
                self.wf(),
                *self == *old(self),
                cookies.session is None,
                old(cookies).session == Some(t),
                forall|k: int| 0 <= k < i ==> (#[trigger] self.sessions()[k]).token != t,
            decreases n - i,
        {
            if self.minted[i].token == t {
                let ghost o = self.sessions();
                self.minted.remove(i);
                proof {
                    let k = i as int;
                    let s = self.sessions();
                    o.remove_ensures(k);
                    assert(s == o.remove(k));
                    assert forall|a: int| 0 <= a < s.len() implies (#[trigger] s[a]).token != t
                        && s[a].token < self.next_token() by {
                        if a < k {
                            assert(s[a] == o[a]);
                            assert(o[a].token != o[k].token);
                        } else {
                            assert(s[a] == o[a + 1]);
                            assert(o[k].token != o[a + 1].token);
                        }
                    }
                    assert forall|a: int, b: int| 0 <= a < b < s.len() implies (
                    #[trigger] s[a]).token != (#[trigger] s[b]).token by {
                        if b < k {
                        } else if a < k {
                            assert(s[a] == o[a] && s[b] == o[b + 1]);
                        } else {
                            assert(s[a] == o[a + 1] && s[b] == o[b + 1]);
                        }
                    }
                    assert(o[k].token == t);
                }
                return ;
            }
            i = i + 1;
        }
        proof {
            assert(!has_token(self.sessions(), t));
        }
    }
}

} // verus!
