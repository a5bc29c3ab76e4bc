//! Sessions and the decision logic of the login, logout and password-change
//! endpoints.  The store of sessions is an in-memory map from session id to
//! session; the id handed to a fresh session is a random token.

use vstd::prelude::*;
use vstd::string::StrSliceExecFns;
use vstd::string::StringExecFns;
use crate::models::{ChangePasswordRequest, ChangePasswordResponse, LoginResponse, StoreError, User};

verus! {

/// One logged-in session.
pub struct Session {
    pub user_id: i64,
    pub username: String,
    /// Unix seconds at which the session was created.
    pub created_at: i64,
}

impl Clone for Session {
    fn clone(&self) -> (r: Self)
        ensures
            r == *self,
    {
        Session {
            user_id: self.user_id,
            username: self.username.clone(),
            created_at: self.created_at,
        }
    }
}

/// Relies on `uuid::Uuid::new_v4` and its `Display` impl: a fresh random
/// version-4 UUID, written in the 36-character hyphenated form.  Nothing is
/// promised of its value: it is random.
#[verifier::external_body]
fn fresh_session_token() -> (r: String)
    ensures
        r@.len() == 36,
{
    uuid::Uuid::new_v4().to_string()
}

/// Relies on `chrono::Utc::now` and `DateTime::timestamp`: the current
/// wall-clock time in unix seconds.  Nothing is promised of the value: it is
/// whatever the clock reads.
#[verifier::external_body]
fn unix_now() -> (r: i64) {
    chrono::Utc::now().timestamp()
}

/// Creates a fresh session for a user: a random 36-character session id and
/// a session record carrying the user's identity and the creation time.
pub fn create_session(user_id: i64, username: String) -> (r: (String, Session))
    ensures
        r.0@.len() == 36,
        r.1.user_id == user_id,
        r.1.username@ == username@,
{
    let session_id = fresh_session_token();
    let created_at = unix_now();
    let session = Session { user_id, username, created_at };
    (session_id, session)
}

/// Some entry of the store carries the given session id.
pub open spec fn store_has(s: Seq<(Seq<char>, Session)>, sid: Seq<char>) -> bool {
    exists|i: int| 0 <= i < s.len() && s[i].0 == sid
}

/// Session ids are unique across the store.
pub open spec fn sids_unique(s: Seq<(Seq<char>, Session)>) -> bool {
    forall|i: int, j: int|
        0 <= i < s.len() && 0 <= j < s.len() && i != j ==> s[i].0 != s[j].0
}

/// The in-memory session store: a map from session id to session.
pub struct SessionStore {
    entries: Vec<(String, Session)>,
}

impl View for SessionStore {
    type V = Seq<(Seq<char>, Session)>;

    closed spec fn view(&self) -> Seq<(Seq<char>, Session)> {
        self.entries@.map_values(|p: (String, Session)| (p.0@, p.1))
    }
}

impl SessionStore {
    /// Session ids stay unique across the store.
    pub open spec fn wf(&self) -> bool {
        sids_unique(self@)
    }

    pub fn new() -> (store: SessionStore)
        ensures
            store@ == Seq::<(Seq<char>, Session)>::empty(),
            store.wf(),
    {
        let store = SessionStore { entries: Vec::new() };
        proof {
            assert(store@ =~= Seq::<(Seq<char>, Session)>::empty());
        }
        store
    }

    /// The index of the entry carrying the given session id, if any.
    fn find_index(&self, session_id: &String) -> (r: Option<usize>)
        ensures
            match r {
                Option::Some(i) => i < self@.len() && self@[i as int].0 == session_id@,
                Option::None => !store_has(self@, session_id@),
            },
    {
        let n = self.entries.len();
        proof {
            assert(self@.len() == self.entries@.len());
        }
        let mut i: usize = 0;
        while i < n
            invariant
                i <= n,
                n == self@.len(),
                n == self.entries@.len(),
                forall|j: int| 0 <= j < self@.len() ==> #[trigger] self@[j] == (
                self.entries@[j].0@,
                self.entries@[j].1,
                ),
                forall|j: int| 0 <= j < i ==> self@[j].0 != session_id@,
            decreases n - i,
        {
            if self.entries[i].0 == *session_id {
                return Option::Some(i);
            }
            i = i + 1;
        }
        Option::None
    }

    /// Puts a session into the store under an id: an entry already carrying
    /// the id is replaced, otherwise the entry is appended.
    pub fn insert(&mut self, session_id: String, session: Session)
        requires
            old(self).wf(),
        ensures
            final(self).wf(),
            store_has(old(self)@, session_id@) ==> {
                &&& final(self)@.len() == old(self)@.len()
                &&& forall|i: int|
                    0 <= i < old(self)@.len() && old(self)@[i].0 == session_id@
                        ==> #[trigger] final(self)@[i] == (session_id@, session)
                &&& forall|i: int|
                    0 <= i < old(self)@.len() && old(self)@[i].0 != session_id@
                        ==> #[trigger] final(self)@[i] == old(self)@[i]
            },
            !store_has(old(self)@, session_id@) ==> final(self)@ == old(self)@.push(
                (session_id@, session),
            ),
    {
        match self.find_index(&session_id) {
            Option::Some(i) => {
                let e = &mut self.entries[i];
                e.0 = session_id;
                e.1 = session;
                proof {
                    let ov = old(self)@;
                    let fv = final(self)@;
                    assert(forall|j: int|
                        0 <= j < ov.len() ==> #[trigger] ov[j] == (
                        old(self).entries@[j].0@,
                        old(self).entries@[j].1,
                        ));
                    assert(forall|j: int|
                        0 <= j < fv.len() ==> #[trigger] fv[j] == (
                        self.entries@[j].0@,
                        self.entries@[j].1,
                        ));
                    assert(forall|j: int|
                        0 <= j < ov.len() && j != i ==> self.entries@[j] == old(
                            self,
                        ).entries@[j]);
                    assert(fv[i as int] == (session_id@, session));
                    assert(forall|a: int| 0 <= a < fv.len() ==> #[trigger] fv[a].0 == ov[a].0);
                }
            },
            Option::None => {
                self.entries.push((session_id, session));
                proof {
                    assert(final(self)@ =~= old(self)@.push(
                        (self.entries@.last().0@, self.entries@.last().1),
                    ));
                }
            },
        }
    }

    /// The session stored under an id, if any.
    pub fn get(&self, session_id: &String) -> (r: Option<Session>)
        ensures
            match r {
                Option::Some(sess) => exists|i: int|
                    0 <= i < self@.len() && self@[i] == (session_id@, sess),
                Option::None => !store_has(self@, session_id@),
            },
    {
        match self.find_index(session_id) {
            Option::Some(i) => {
                let sess = self.entries[i].1.clone();
                proof {
                    assert(self@[i as int] == (self.entries@[i as int].0@, self.entries@[i as int].1));
                    assert(self@[i as int] == (session_id@, sess));
                }
                Option::Some(sess)
            },
            Option::None => Option::None,
        }
    }

    /// Takes the entry carrying an id out of the store, if any; every other
    /// entry keeps its place.
    pub fn remove(&mut self, session_id: &String)
        requires
            old(self).wf(),
        ensures
            final(self).wf(),
            !store_has(old(self)@, session_id@) ==> final(self)@ == old(self)@,
            forall|i: int|
                0 <= i < old(self)@.len() && old(self)@[i].0 == session_id@ ==> final(self)@
                    == old(self)@.remove(i),
    {
        match self.find_index(session_id) {
            Option::Some(i) => {
                self.entries.remove(i);
                proof {
                    assert(final(self)@ =~= old(self)@.remove(i as int));
                }
            },
            Option::None => {},
        }
    }
}

/// The login decision, given the outcome of the credential lookup: on a
/// matching user, a success response redirecting to the dashboard together
/// with a fresh session to be stored and set as a cookie; on no match or a
/// store failure, a failure response naming the cause, and no session.
pub fn evaluate_login(lookup: Result<Option<User>, StoreError>) -> (r: (
    LoginResponse,
    Option<(String, Session)>,
))
    ensures
        (match lookup {
            Result::Ok(Option::Some(user)) => {
                &&& r.0.success
                &&& r.0.message@ == ("Login successful!")@
                &&& (match r.0.redirect_url {
                    Option::Some(u) => u@ == ("/dashboard")@,
                    Option::None => false,
                })
                &&& (match r.1 {
                    Option::Some(p) => p.0@.len() == 36 && p.1.user_id == user.id
                        && p.1.username@ == user.username@,
                    Option::None => false,
                })
            },
            Result::Ok(Option::None) => {
                &&& !r.0.success
                &&& r.0.message@ == ("Invalid username or password")@
                &&& r.0.redirect_url is None
                &&& r.1 is None
            },
            Result::Err(_) => {
                &&& !r.0.success
                &&& r.0.message@ == ("Database error occurred")@
                &&& r.0.redirect_url is None
                &&& r.1 is None
            },
        }),
{
    match lookup {
        Result::Ok(Option::Some(user)) => {
            let (session_id, session) = create_session(user.id, user.username);
            let response = LoginResponse {
                success: true,
                message: String::from_str("Login successful!"),
                redirect_url: Option::Some(String::from_str("/dashboard")),
            };
            (response, Option::Some((session_id, session)))
        },
        Result::Ok(Option::None) => {
            let response = LoginResponse {
                success: false,
                message: String::from_str("Invalid username or password"),
                redirect_url: Option::None,
            };
            (response, Option::None)
        },
        Result::Err(_) => {
            let response = LoginResponse {
                success: false,
                message: String::from_str("Database error occurred"),
                redirect_url: Option::None,
            };
            (response, Option::None)
        },
    }
}

/// Validates a password-change request before any store access: the new
/// password and its confirmation must agree and the new password must be at
/// least 6 bytes long.  Returns the failure response to hand back, or
/// nothing when the change may proceed.
pub fn validate_password_change(req: &ChangePasswordRequest) -> (r: Option<ChangePasswordResponse>)
    ensures
        req.new_password@ != req.confirm_password@ ==> (match r {
            Option::Some(resp) => !resp.success && resp.message@ == (
            "New password and confirmation password do not match")@,
            Option::None => false,
        }),
        req.new_password@ == req.confirm_password@ && req.new_password@.len() < 6 ==> (match r {
            Option::Some(resp) => !resp.success && resp.message@ == (
            "New password must be at least 6 characters long")@,
            Option::None => false,
        }),
        req.new_password@ == req.confirm_password@ && req.new_password@.len() >= 6 ==> r is None,
{
    if !(str_eq(req.new_password.as_str(), req.confirm_password.as_str())) {
        return Option::Some(
            ChangePasswordResponse {
                success: false,
                message: String::from_str("New password and confirmation password do not match"),
            },
        );
    }
    if req.new_password.as_str().unicode_len() < 6 {
        return Option::Some(
            ChangePasswordResponse {
                success: false,
                message: String::from_str("New password must be at least 6 characters long"),
            },
        );
    }
    Option::None
}

/// What to do after the current-password check: proceed to the update when
/// the stored row matched, otherwise answer at once — the password was
/// wrong, or the store failed.
pub enum PasswordVerifyStep {
    Proceed,
    Respond(ChangePasswordResponse),
}

/// The decision after the current-password lookup.
pub fn after_password_verify(verify: Result<bool, StoreError>) -> (r: PasswordVerifyStep)
    ensures
        (match verify {
            Result::Ok(true) => r is Proceed,
            Result::Ok(false) => (match r {
                PasswordVerifyStep::Respond(resp) => !resp.success && resp.message@ == (
                "Current password is incorrect")@,
                PasswordVerifyStep::Proceed => false,
            }),
            Result::Err(_) => (match r {
                PasswordVerifyStep::Respond(resp) => !resp.success && resp.message@ == (
                "Database error occurred. Please try again.")@,
                PasswordVerifyStep::Proceed => false,
            }),
        }),
{
    match verify {
        Result::Ok(true) => PasswordVerifyStep::Proceed,
        Result::Ok(false) => PasswordVerifyStep::Respond(
            ChangePasswordResponse {
                success: false,
                message: String::from_str("Current password is incorrect"),
            },
        ),
        Result::Err(_) => PasswordVerifyStep::Respond(
            ChangePasswordResponse {
                success: false,
                message: String::from_str("Database error occurred. Please try again."),
            },
        ),
    }
}

/// The response after the password update itself ran against the store.
pub fn password_update_response(update: Result<(), StoreError>) -> (r: ChangePasswordResponse)
    ensures
        update is Ok ==> r.success && r.message@ == ("Password changed successfully!")@,
        update is Err ==> !r.success && r.message@ == (
        "Failed to update password. Please try again.")@,
{
    match update {
        Result::Ok(_) => ChangePasswordResponse {
            success: true,
            message: String::from_str("Password changed successfully!"),
        },
        Result::Err(_) => ChangePasswordResponse {
            success: false,
            message: String::from_str("Failed to update password. Please try again."),
        },
    }
}

/// The characters trimmed from the ends of a cookie pair.
pub open spec fn is_cookie_space(c: char) -> bool {
    c == ' ' || c == '\t' || c == '\n' || c == '\r'
}

/// A sequence with its leading spaces removed.
pub open spec fn trim_start_spec(s: Seq<char>) -> Seq<char>
    decreases s.len(),
{
    if s.len() > 0 && is_cookie_space(s.first()) {
        trim_start_spec(s.skip(1))
    } else {
        s
    }
}

/// A sequence with its trailing spaces removed.
pub open spec fn trim_end_spec(s: Seq<char>) -> Seq<char>
    decreases s.len(),
{
    if s.len() > 0 && is_cookie_space(s.last()) {
        trim_end_spec(s.drop_last())
    } else {
        s
    }
}

/// A sequence with the spaces at both ends removed.
pub open spec fn trim_spec(s: Seq<char>) -> Seq<char> {
    trim_end_spec(trim_start_spec(s))
}

/// The position of the first `;`, or the length when there is none.
pub open spec fn first_semi(s: Seq<char>) -> nat
    decreases s.len(),
{
    if s.len() == 0 {
        0
    } else if s.first() == ';' {
        0
    } else {
        (1 + first_semi(s.skip(1))) as nat
    }
}

/// The session id a cookie header carries: the value of the first
/// `;`-separated pair that, once trimmed, starts with `session_id=`.
pub open spec fn session_id_of(s: Seq<char>) -> Option<Seq<char>>
    decreases s.len(),
{
    let p = first_semi(s);
    let seg = trim_spec(s.take(p as int));
    if seg.len() >= 11 && seg.take(11) == ("session_id=")@ {
        Option::Some(seg.skip(11))
    } else if p < s.len() {
        session_id_of(s.skip(p as int + 1))
    } else {
        Option::<Seq<char>>::None
    }
}

/// `first_semi` is the position of the first `;`.
proof fn lemma_first_semi_at(s: Seq<char>, p: int)
    requires
        0 <= p <= s.len(),
        forall|j: int| 0 <= j < p ==> s[j] != ';',
        p < s.len() ==> s[p] == ';',
    ensures
        first_semi(s) == p,
    decreases s.len(),
{
    if s.len() == 0 {
    } else if s.first() == ';' {
        if p > 0 {
            assert(s[0] != ';');
        }
    } else {
        assert(p >= 1) by {
            if p == 0 {
                assert(s[0] == ';');
            }
        }
        let t = s.skip(1);
        assert(forall|j: int| 0 <= j < t.len() ==> t[j] == s[j + 1]);
        lemma_first_semi_at(t, p - 1);
    }
}

/// `trim_start_spec` drops exactly the leading spaces.
proof fn lemma_trim_start_at(s: Seq<char>, a: int)
    requires
        0 <= a <= s.len(),
        forall|j: int| 0 <= j < a ==> is_cookie_space(s[j]),
        a < s.len() ==> !is_cookie_space(s[a]),
    ensures
        trim_start_spec(s) == s.skip(a),
    decreases s.len(),
{
    if s.len() == 0 {
        assert(s.skip(0) =~= s);
    } else if is_cookie_space(s.first()) {
        assert(a >= 1) by {
            if a == 0 {
                assert(!is_cookie_space(s[0]));
            }
        }
        let t = s.skip(1);
        assert(forall|j: int| 0 <= j < t.len() ==> t[j] == s[j + 1]);
        lemma_trim_start_at(t, a - 1);
        assert(t.skip(a - 1) =~= s.skip(a));
    } else {
        assert(a == 0) by {
            if a > 0 {
                assert(is_cookie_space(s[0]));
            }
        }
        assert(s.skip(0) =~= s);
    }
}

/// `trim_end_spec` drops exactly the trailing spaces.
proof fn lemma_trim_end_at(s: Seq<char>, b: int)
    requires
        0 <= b <= s.len(),
        forall|j: int| b <= j < s.len() ==> is_cookie_space(s[j]),
        b > 0 ==> !is_cookie_space(s[b - 1]),
    ensures
        trim_end_spec(s) == s.take(b),
    decreases s.len(),
{
    if s.len() == 0 {
        assert(s.take(0) =~= s);
    } else if is_cookie_space(s.last()) {
        assert(b < s.len()) by {
            if b == s.len() {
                assert(!is_cookie_space(s[s.len() - 1]));
            }
        }
        let t = s.drop_last();
        assert(forall|j: int| 0 <= j < t.len() ==> t[j] == s[j]);
        lemma_trim_end_at(t, b);
        assert(t.take(b) =~= s.take(b));
    } else {
        assert(b == s.len()) by {
            if b < s.len() {
                assert(is_cookie_space(s[s.len() - 1]));
            }
        }
        assert(s.take(b) =~= s);
    }
}

/// Whether a character is trimmed from a cookie pair.
fn is_space_char(c: char) -> (r: bool)
    ensures
        r == is_cookie_space(c),
{
    c == ' ' || c == '\t' || c == '\n' || c == '\r'
}

/// The position of the first `;`, or the length when there is none.
fn find_semi(s: &str) -> (p: usize)
    ensures
        p <= s@.len(),
        forall|j: int| 0 <= j < p ==> s@[j] != ';',
        p < s@.len() ==> s@[p as int] == ';',
{
    let n = s.unicode_len();
    let mut i: usize = 0;
    while i < n
        invariant
            i <= n,
            n == s@.len(),
            forall|j: int| 0 <= j < i ==> s@[j] != ';',
        decreases n - i,
    {
        if s.get_char(i) == ';' {
            return i;
        }
        i = i + 1;
    }
    i
}

/// The position of the first non-space character before `to`.
fn skip_spaces_forward(s: &str, to: usize) -> (a: usize)
    requires
        to <= s@.len(),
    ensures
        a <= to,
        forall|j: int| 0 <= j < a ==> is_cookie_space(s@[j]),
        a < to ==> !is_cookie_space(s@[a as int]),
{
    let mut i: usize = 0;
    while i < to
        invariant
            i <= to,
            to <= s@.len(),
            forall|j: int| 0 <= j < i ==> is_cookie_space(s@[j]),
        decreases to - i,
    {
        if !is_space_char(s.get_char(i)) {
            return i;
        }
        i = i + 1;
    }
    i
}

/// The position after the last non-space character of `[from, to)`.
fn skip_spaces_backward(s: &str, from: usize, to: usize) -> (b: usize)
    requires
        from <= to <= s@.len(),
    ensures
        from <= b <= to,
        forall|j: int| b <= j < to ==> is_cookie_space(s@[j]),
        b > from ==> !is_cookie_space(s@[b - 1]),
{
    let mut i: usize = to;
    while i > from
        invariant
            from <= i <= to,
            to <= s@.len(),
            forall|j: int| i <= j < to ==> is_cookie_space(s@[j]),
        decreases i,
    {
        if !is_space_char(s.get_char(i - 1)) {
            return i;
        }
        i = i - 1;
    }
    i
}

/// Extracts the session id from a cookie header: the value of the first
/// `;`-separated pair that, after the spaces around it are trimmed, starts
/// with `session_id=`.
pub fn extract_session_id(cookie: &str) -> (r: Option<String>)
    ensures
        (match r {
            Option::Some(v) => session_id_of(cookie@) == Option::Some(v@),
            Option::None => session_id_of(cookie@) is None,
        }),
    decreases cookie@.len(),
{
    let n = cookie.unicode_len();
    let p = find_semi(cookie);
    let a = skip_spaces_forward(cookie, p);
    let b = skip_spaces_backward(cookie, a, p);
    proof {
        lemma_first_semi_at(cookie@, p as int);
        let seg = cookie@.take(p as int);
        assert(forall|j: int| 0 <= j < seg.len() ==> seg[j] == cookie@[j]);
        lemma_trim_start_at(seg, a as int);
        let seg2 = seg.skip(a as int);
        assert(forall|j: int| 0 <= j < seg2.len() ==> seg2[j] == cookie@[a + j]);
        lemma_trim_end_at(seg2, b - a);
        assert(trim_spec(seg) =~= cookie@.subrange(a as int, b as int));
    }
    let ghost seg: Seq<char> = trim_spec(cookie@.take(p as int));
    if b - a >= 11 {
        let head = cookie.substring_char(a, a + 11);
        if str_eq(head, "session_id=") {
            let value = cookie.substring_char(a + 11, b).to_owned();
            proof {
                assert(seg.take(11) =~= cookie@.subrange(a as int, a as int + 11));
                assert(seg.take(11) == ("session_id=")@);
                assert(seg.skip(11) =~= cookie@.subrange(a as int + 11, b as int));
                assert(session_id_of(cookie@) == Option::Some(seg.skip(11)));
            }
            return Option::Some(value);
        }
        proof {
            assert(seg.take(11) =~= cookie@.subrange(a as int, a as int + 11));
            assert(seg.take(11) != ("session_id=")@);
        }
    } else {
        proof {
            assert(seg.len() < 11);
        }
    }
    if p < n {
        let rest = cookie.substring_char(p + 1, n);
        proof {
            assert(rest@ =~= cookie@.skip(p as int + 1));
        }
        let r = extract_session_id(rest);
        proof {
            assert(session_id_of(cookie@) == session_id_of(rest@));
        }
        r
    } else {
        proof {
            assert(session_id_of(cookie@) is None);
        }
        Option::None
    }
}

/// The session a request's cookie header names: the store's entry under the
/// session id the header carries, if both exist.
pub fn get_session(cookie: &str, sessions: &SessionStore) -> (r: Option<Session>)
    ensures
        (match session_id_of(cookie@) {
            Option::Some(sid) => match r {
                Option::Some(sess) => exists|i: int|
                    0 <= i < sessions@.len() && sessions@[i] == (sid, sess),
                Option::None => !store_has(sessions@, sid),
            },
            Option::None => r is None,
        }),
{
    match extract_session_id(cookie) {
        Option::Some(sid) => sessions.get(&sid),
        Option::None => Option::None,
    }
}

/// Authentication failure: the caller answers it with a redirect to the
/// login page.
pub struct AuthError;

/// Admits the request exactly when its cookie header names a stored
/// session.
pub fn require_auth(cookie: &str, sessions: &SessionStore) -> (r: Result<Session, AuthError>)
    ensures
        (match session_id_of(cookie@) {
            Option::Some(sid) => match r {
                Result::Ok(sess) => exists|i: int|
                    0 <= i < sessions@.len() && sessions@[i] == (sid, sess),
                Result::Err(_) => !store_has(sessions@, sid),
            },
            Option::None => r is Err,
        }),
{
    match get_session(cookie, sessions) {
        Option::Some(sess) => Result::Ok(sess),
        Option::None => Result::Err(AuthError),
    }
}

/// Whether two string slices hold the same characters.
pub fn str_eq(a: &str, b: &str) -> (r: bool)
    ensures
        r == (a@ == b@),
{
    let na = a.unicode_len();
    let nb = b.unicode_len();
    if na != nb {
        return false;
    }
    let mut i: usize = 0;
    while i < na
        invariant
            i <= na,
            na == a@.len(),
            na == b@.len(),
            forall|j: int| 0 <= j < i ==> a@[j] == b@[j],
        decreases na - i,
    {
        if a.get_char(i) != b.get_char(i) {
            return false;
        }
        i = i + 1;
    }
    proof {
        assert(a@ =~= b@);
    }
    true
}

} // verus!
