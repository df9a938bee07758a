//! Registration: input validation and the registration flow.
use vstd::pervasive::unreached;
use vstd::prelude::*;

use crate::auth::password::{hash_password, is_argon2id_hash_of, MAX_PASSWORD_BYTES};
use crate::model::user::{NewUser, RegisterRequest, User, UserUpdate};
use crate::utils::errors::AuthError;
use crate::utils::text::{
    chars_of, find_char, is_ascii_digit, is_digit, is_first_char, is_uppercase, unicode_uppercase,
    utf8_len,
};

verus! {

// ── Email ─────────────────────────────────────────────────────────────────────

/// The part after the `@`: contains a dot, and neither starts nor ends with one.
pub open spec fn valid_domain(d: Seq<char>) -> bool {
    &&& d.contains('.')
    &&& d[0] != '.'
    &&& d[d.len() - 1] != '.'
}

/// An email address: a non-empty part before the first `@`, and a valid
/// domain after it.
pub open spec fn valid_email(e: Seq<char>) -> bool {
    exists|at: int| #[trigger] is_first_char(e, '@', at) && 0 < at && valid_domain(e.subrange(at + 1, e.len() as int))
}

/// An address is valid exactly when its first `@` is not at the start and
/// what follows it has a `.` somewhere but neither begins nor ends with
/// one; an address without `@` is never valid.
pub proof fn email_rules(e: Seq<char>)
    ensures
        forall|at: int|
            0 <= at < e.len() && #[trigger] e[at] == '@' && (forall|j: int| 0 <= j < at ==> e[j] != '@')
                ==> (valid_email(e) == (0 < at && at + 1 < e.len() && e[at + 1] != '.' && e[e.len() - 1]
                != '.' && exists|k: int| at < k < e.len() && #[trigger] e[k] == '.')),
        (forall|j: int| 0 <= j < e.len() ==> e[j] != '@') ==> !valid_email(e),
{
    assert forall|at: int|
        0 <= at < e.len() && #[trigger] e[at] == '@' && (forall|j: int| 0 <= j < at ==> e[j] != '@') implies (
    valid_email(e) == (0 < at && at + 1 < e.len() && e[at + 1] != '.' && e[e.len() - 1] != '.' && exists|k: int|
        at < k < e.len() && #[trigger] e[k] == '.')) by {
        assert(is_first_char(e, '@', at));
        let d = e.subrange(at + 1, e.len() as int);
        if valid_email(e) {
            let a = choose|a: int| #[trigger] is_first_char(e, '@', a) && 0 < a && valid_domain(e.subrange(a + 1, e.len() as int));
            assert(a == at) by {
                if a < at { assert(e[a] != '@'); }
                if a > at { assert(e[at] != '@'); }
            }
            let k = choose|k: int| 0 <= k < d.len() && d[k] == '.';
            assert(e[at + 1 + k] == '.');
            assert(d[0] == e[at + 1]);
        }
        if 0 < at && at + 1 < e.len() && e[at + 1] != '.' && e[e.len() - 1] != '.' && exists|k: int|
            at < k < e.len() && #[trigger] e[k] == '.' {
            let k = choose|k: int| at < k < e.len() && #[trigger] e[k] == '.';
            assert(d[k - at - 1] == '.');
            assert(valid_domain(d));
        }
    }
    if forall|j: int| 0 <= j < e.len() ==> e[j] != '@' {
        if valid_email(e) {
            let a = choose|a: int| #[trigger] is_first_char(e, '@', a) && 0 < a && valid_domain(e.subrange(a + 1, e.len() as int));
            assert(e[a] == '@');
        }
    }
}

/// The error an invalid address is reported with.
pub open spec fn is_invalid_email_error(err: AuthError, email: Seq<char>) -> bool {
    match err {
        AuthError::InvalidEmail(m) => m@ == "'"@ + email + "' is not a valid email address"@,
        _ => false,
    }
}

/// Basic email format validation.
pub fn validate_email(email: &str) -> (r: Result<(), AuthError>)
    ensures
        r is Ok <==> valid_email(email@),
        r matches Err(e) ==> is_invalid_email_error(e, email@),
{
    let cs = chars_of(email);
    let valid = match find_char(&cs, '@', 0) {
        None => false,
        Some(at) => {
            if at == 0 {
                false
            } else {
                let n = cs.len();
                let dot = find_char(&cs, '.', at + 1);
                let ok = dot.is_some() && cs[at + 1] != '.' && cs[n - 1] != '.';
                proof {
                    let d = email@.subrange(at + 1, email@.len() as int);
                    assert(is_first_char(email@, '@', at as int));
                    if dot is Some {
                        assert(d[dot->0 - at - 1] == '.');
                    }
                    if d.contains('.') {
                        let k = choose|k: int| 0 <= k < d.len() && d[k] == '.';
                        assert(email@[at + 1 + k] == '.');
                    }
                    assert(ok == valid_domain(d));
                }
                ok
            }
        },
    };
    proof {
        if valid_email(email@) {
            let at = choose|at: int| #[trigger] is_first_char(email@, '@', at) && 0 < at
                && valid_domain(email@.subrange(at + 1, email@.len() as int));
            assert(email@[at] == '@');
        }
    }
    if valid {
        Ok(())
    } else {
        let mut m = String::from_str("'");
        m.append(email);
        m.append("' is not a valid email address");
        Err(AuthError::InvalidEmail(m))
    }
}

// ── Password ──────────────────────────────────────────────────────────────────

/// What is wrong with a password, if anything: fewer than 8 bytes, no
/// uppercase letter, or no ASCII digit — the first that applies.
pub open spec fn password_problem(p: Seq<char>) -> Option<Seq<char>> {
    if utf8_len(p) < 8 {
        Some("must be at least 8 characters"@)
    } else if !(exists|i: int| 0 <= i < p.len() && #[trigger] unicode_uppercase(p[i])) {
        Some("must contain at least one uppercase letter"@)
    } else if !(exists|i: int| 0 <= i < p.len() && #[trigger] is_ascii_digit(p[i])) {
        Some("must contain at least one digit"@)
    } else {
        None
    }
}

/// A password passes exactly when it has at least 8 bytes, an uppercase
/// letter somewhere and an ASCII digit somewhere; otherwise the reason is
/// the first rule broken, in that order.
pub proof fn password_rules(p: Seq<char>)
    ensures
        (password_problem(p) is None) == (utf8_len(p) >= 8 && (exists|i: int|
            0 <= i < p.len() && #[trigger] unicode_uppercase(p[i])) && (exists|j: int|
            0 <= j < p.len() && '0' <= #[trigger] p[j] && p[j] <= '9')),
        utf8_len(p) < 8 ==> password_problem(p) == Some("must be at least 8 characters"@),
        forall|i: int|
            0 <= i < p.len() && #[trigger] unicode_uppercase(p[i]) ==> password_problem(p)
                != Some("must contain at least one uppercase letter"@) || utf8_len(p) < 8,
        forall|j: int|
            0 <= j < p.len() && '0' <= #[trigger] p[j] && p[j] <= '9' ==> password_problem(p)
                != Some("must contain at least one digit"@),
{
    reveal_strlit("must be at least 8 characters");
    reveal_strlit("must contain at least one uppercase letter");
    reveal_strlit("must contain at least one digit");
    if utf8_len(p) >= 8 && (exists|j: int| 0 <= j < p.len() && '0' <= #[trigger] p[j] && p[j] <= '9') {
        let j = choose|j: int| 0 <= j < p.len() && '0' <= #[trigger] p[j] && p[j] <= '9';
        assert(is_ascii_digit(p[j]));
    }
    assert forall|j: int| 0 <= j < p.len() && '0' <= #[trigger] p[j] && p[j] <= '9' implies password_problem(p)
        != Some("must contain at least one digit"@) by {
        assert(is_ascii_digit(p[j]));
        assert("must contain at least one digit"@.len() != "must be at least 8 characters"@.len());
        assert("must contain at least one digit"@.len() != "must contain at least one uppercase letter"@.len());
    }
    assert("must be at least 8 characters"@.len() != "must contain at least one uppercase letter"@.len());
}

/// A `WeakPassword` error with the given reason.
pub open spec fn is_weak_password_error(err: AuthError, reason: Seq<char>) -> bool {
    match err {
        AuthError::WeakPassword(m) => m@ == reason,
        _ => false,
    }
}

/// Minimum password strength requirements.
pub fn validate_password(password: &str) -> (r: Result<(), AuthError>)
    ensures
        r is Ok <==> password_problem(password@) is None,
        r matches Err(e) ==> is_weak_password_error(e, password_problem(password@)->0),
{
    if password.as_bytes().len() < 8 {
        return Err(AuthError::WeakPassword(String::from_str("must be at least 8 characters")));
    }
    let cs = chars_of(password);
    let mut has_upper = false;
    let mut has_digit = false;
    let mut i: usize = 0;
    while i < cs.len()
        invariant
            i <= cs@.len(),
            cs@ == password@,
            has_upper == exists|j: int| 0 <= j < i && #[trigger] unicode_uppercase(cs@[j]),
            has_digit == exists|j: int| 0 <= j < i && #[trigger] is_ascii_digit(cs@[j]),
        decreases cs.len() - i,
    {
        let c = cs[i];
        if is_uppercase(c) {
            has_upper = true;
        }
        if is_digit(c) {
            has_digit = true;
        }
        i = i + 1;
    }
    if !has_upper {
        return Err(AuthError::WeakPassword(String::from_str("must contain at least one uppercase letter")));
    }
    if !has_digit {
        return Err(AuthError::WeakPassword(String::from_str("must contain at least one digit")));
    }
    Ok(())
}

// ── The registration flow ─────────────────────────────────────────────────────

/// A lowercase hexadecimal digit.
pub open spec fn is_lower_hex(c: char) -> bool {
    ('0' <= c && c <= '9') || ('a' <= c && c <= 'f')
}

/// The text of a random (version 4, RFC 4122 variant) UUID in hyphenated
/// lowercase form: `xxxxxxxx-xxxx-4xxx-yxxx-xxxxxxxxxxxx` with `y` one of
/// `8`, `9`, `a`, `b`.
pub open spec fn is_uuid_v4_text(s: Seq<char>) -> bool {
    &&& s.len() == 36
    &&& forall|i: int|
        0 <= i < 36 ==> if i == 8 || i == 13 || i == 18 || i == 23 {
            s[i] == '-'
        } else {
            is_lower_hex(#[trigger] s[i])
        }
    &&& s[14] == '4'
    &&& (s[19] == '8' || s[19] == '9' || s[19] == 'a' || s[19] == 'b')
}

/// A fresh per-user JWT secret: `uuid::Uuid::new_v4()` rendered by its
/// `Display` (lowercase hyphenated, with the version and variant bits
/// `new_v4` sets).  Which of the random UUIDs comes out is not stated.
#[verifier::external_body]
fn new_jwt_secret() -> (s: String)
    ensures
        is_uuid_v4_text(s@),
{
    uuid::Uuid::new_v4().to_string()
}

/// Where a registration stands.  The flow alternates between decisions
/// taken here and storage work done by the caller.
pub enum RegisterState {
    /// Nothing done yet.
    Start(RegisterRequest),
    /// Input validated; waiting for whether the email is taken.
    AwaitEmailCheck(RegisterRequest),
    /// Email free; waiting for whether the username is taken.
    AwaitUsernameCheck(RegisterRequest),
    /// Waiting for the new row to be inserted.
    AwaitCreate,
    /// The response has been given.
    Done,
}

/// What the caller reports back.
pub enum RegisterEvent {
    /// Start the flow.
    Begin,
    /// Answer to an existence query.
    Exists(bool),
    /// The inserted user.
    Created(User),
    /// The storage operation failed.
    Failed(AuthError),
}

/// What the caller is to do next.
pub enum RegisterAction {
    /// Ask whether a user with this email exists.
    CheckEmail(String),
    /// Ask whether a user with this username exists.
    CheckUsername(String),
    /// Insert this user.
    Create(NewUser),
    /// Registration is over: return this.
    Respond(Result<User, AuthError>),
}

/// The events a state waits for.
pub open spec fn expects(state: RegisterState, event: RegisterEvent) -> bool {
    match state {
        RegisterState::Start(_) => event is Begin,
        RegisterState::AwaitEmailCheck(_) => event is Exists || event is Failed,
        RegisterState::AwaitUsernameCheck(_) => event is Exists || event is Failed,
        RegisterState::AwaitCreate => event is Created || event is Failed,
        RegisterState::Done => false,
    }
}

/// A request that passed input validation.
pub open spec fn valid_input(req: RegisterRequest) -> bool {
    valid_email(req.email@) && password_problem(req.password@) is None
}

/// What each state knows of its request.
pub open spec fn valid_state(state: RegisterState) -> bool {
    match state {
        RegisterState::AwaitEmailCheck(req) => valid_input(req),
        RegisterState::AwaitUsernameCheck(req) => valid_input(req) && req.username is Some,
        _ => true,
    }
}

/// Steps left before the response, at most.
pub open spec fn rank(state: RegisterState) -> nat {
    match state {
        RegisterState::Start(_) => 4,
        RegisterState::AwaitEmailCheck(_) => 3,
        RegisterState::AwaitUsernameCheck(_) => 2,
        RegisterState::AwaitCreate => 1,
        RegisterState::Done => 0,
    }
}

/// The error a finishing action answers with, if any.
pub open spec fn answered_error(action: RegisterAction) -> Option<AuthError> {
    match action {
        RegisterAction::Respond(Err(e)) => Some(e),
        _ => None,
    }
}

/// Finished with exactly `r`.
pub open spec fn finishes_with(next: RegisterState, action: RegisterAction, r: Result<User, AuthError>) -> bool {
    next is Done && action == RegisterAction::Respond(r)
}

/// The outcome once every check has passed: the request's fields with the
/// password hashed and a fresh secret, to be inserted; or, for a password
/// longer than Argon2 hashes, a hashing error.
pub open spec fn prepared(req: RegisterRequest, next: RegisterState, action: RegisterAction) -> bool {
    match action {
        RegisterAction::Create(nu) => {
            &&& next is AwaitCreate
            &&& nu.email == req.email
            &&& nu.username == req.username
            &&& nu.first_name == req.first_name
            &&& nu.last_name == req.last_name
            &&& is_argon2id_hash_of(req.password@, nu.password_hash@)
            &&& is_uuid_v4_text(nu.jwt_secret@)
            &&& utf8_len(req.password@) <= MAX_PASSWORD_BYTES
        },
        RegisterAction::Respond(Err(e)) => next is Done && e is HashingError && utf8_len(req.password@)
            > MAX_PASSWORD_BYTES,
        _ => false,
    }
}

/// One step of the registration flow.
pub open spec fn register_next(
    state: RegisterState,
    event: RegisterEvent,
    next: RegisterState,
    action: RegisterAction,
) -> bool {
    match state {
        RegisterState::Start(req) => if !valid_email(req.email@) {
            next is Done && answered_error(action) is Some
                && is_invalid_email_error(answered_error(action)->0, req.email@)
        } else if password_problem(req.password@) is Some {
            next is Done && answered_error(action) is Some
                && is_weak_password_error(answered_error(action)->0, password_problem(req.password@)->0)
        } else {
            next == RegisterState::AwaitEmailCheck(req) && action == RegisterAction::CheckEmail(req.email)
        },
        RegisterState::AwaitEmailCheck(req) => match event {
            RegisterEvent::Failed(e) => finishes_with(next, action, Err(e)),
            RegisterEvent::Exists(true) => finishes_with(next, action, Err(AuthError::EmailAlreadyTaken)),
            _ => match req.username {
                Some(u) => next == RegisterState::AwaitUsernameCheck(req)
                    && action == RegisterAction::CheckUsername(u),
                None => prepared(req, next, action),
            },
        },
        RegisterState::AwaitUsernameCheck(req) => match event {
            RegisterEvent::Failed(e) => finishes_with(next, action, Err(e)),
            RegisterEvent::Exists(true) => finishes_with(next, action, Err(AuthError::UsernameAlreadyTaken)),
            _ => prepared(req, next, action),
        },
        RegisterState::AwaitCreate => match event {
            RegisterEvent::Created(u) => finishes_with(next, action, Ok(u)),
            RegisterEvent::Failed(e) => finishes_with(next, action, Err(e)),
            _ => false,
        },
        RegisterState::Done => false,
    }
}

fn clone_opt(o: &Option<String>) -> (r: Option<String>)
    ensures
        r == *o,
{
    match o {
        Some(s) => Some(s.clone()),
        None => None,
    }
}

/// Hash the password, generate the secret, and hand over the new row.
fn prepare(req: RegisterRequest) -> (r: (RegisterState, RegisterAction))
    ensures
        prepared(req, r.0, r.1),
{
    let password_hash = match hash_password(req.password.as_str()) {
        Ok(h) => h,
        Err(e) => return (RegisterState::Done, RegisterAction::Respond(Err(e))),
    };
    let jwt_secret = new_jwt_secret();
    let new_user = NewUser {
        email: req.email,
        password_hash,
        jwt_secret,
        username: req.username,
        first_name: req.first_name,
        last_name: req.last_name,
    };
    (RegisterState::AwaitCreate, RegisterAction::Create(new_user))
}

/// Register a new user account, one step at a time.
///
/// ```text
/// Start ── validate email ─────────────→ InvalidEmail
///        ├ validate password ──────────→ WeakPassword
///        └ CheckEmail ─ taken ─────────→ EmailAlreadyTaken
///            └ CheckUsername (if given) ─ taken → UsernameAlreadyTaken
///                └ hash password ──────→ HashingError
///                    └ Create ─────────→ the stored user, or the storage error
/// ```
pub fn register_step(state: RegisterState, event: RegisterEvent) -> (r: (RegisterState, RegisterAction))
    requires
        valid_state(state),
        expects(state, event),
    ensures
        register_next(state, event, r.0, r.1),
        valid_state(r.0),
        rank(r.0) < rank(state),
        r.1 matches RegisterAction::Create(nu) ==> valid_email(nu.email@),
{
    match state {
        RegisterState::Start(req) => {
            match validate_email(req.email.as_str()) {
                Ok(()) => {},
                Err(e) => return (RegisterState::Done, RegisterAction::Respond(Err(e))),
            }
            match validate_password(req.password.as_str()) {
                Ok(()) => {},
                Err(e) => return (RegisterState::Done, RegisterAction::Respond(Err(e))),
            }
            let email = req.email.clone();
            (RegisterState::AwaitEmailCheck(req), RegisterAction::CheckEmail(email))
        },
        RegisterState::AwaitEmailCheck(req) => match event {
            RegisterEvent::Failed(e) => (RegisterState::Done, RegisterAction::Respond(Err(e))),
            RegisterEvent::Exists(true) => (
                RegisterState::Done,
                RegisterAction::Respond(Err(AuthError::EmailAlreadyTaken)),
            ),
            _ => match clone_opt(&req.username) {
                Some(u) => (RegisterState::AwaitUsernameCheck(req), RegisterAction::CheckUsername(u)),
                None => prepare(req),
            },
        },
        RegisterState::AwaitUsernameCheck(req) => match event {
            RegisterEvent::Failed(e) => (RegisterState::Done, RegisterAction::Respond(Err(e))),
            RegisterEvent::Exists(true) => (
                RegisterState::Done,
                RegisterAction::Respond(Err(AuthError::UsernameAlreadyTaken)),
            ),
            _ => prepare(req),
        },
        RegisterState::AwaitCreate => match event {
            RegisterEvent::Created(u) => (RegisterState::Done, RegisterAction::Respond(Ok(u))),
            RegisterEvent::Failed(e) => (RegisterState::Done, RegisterAction::Respond(Err(e))),
            _ => unreached(),
        },
        RegisterState::Done => unreached(),
    }
}

/// A run of the registration flow: the states it passed through, the
/// events it was given and the actions it asked for, every step taken as
/// `register_step` takes it.
pub open spec fn is_register_run(
    req: RegisterRequest,
    states: Seq<RegisterState>,
    events: Seq<RegisterEvent>,
    actions: Seq<RegisterAction>,
) -> bool {
    &&& states.len() == events.len() + 1
    &&& actions.len() == events.len()
    &&& states[0] == RegisterState::Start(req)
    &&& forall|i: int| 0 <= i < events.len() ==> #[trigger] run_step(states, events, actions, i)
}

/// Step `i` of a run is one that `register_step` takes.
pub open spec fn run_step(
    states: Seq<RegisterState>,
    events: Seq<RegisterEvent>,
    actions: Seq<RegisterAction>,
    i: int,
) -> bool {
    expects(states[i], events[i]) && register_next(states[i], events[i], states[i + 1], actions[i])
}

/// A user is only ever inserted after the email and password passed
/// validation, the email was reported free and, when a username was
/// given, the username was reported free too; what is inserted is the
/// request's data with a hash of its password and a secret written as a
/// version 4 UUID.
pub proof fn registration_creates_only_after_all_checks(
    req: RegisterRequest,
    states: Seq<RegisterState>,
    events: Seq<RegisterEvent>,
    actions: Seq<RegisterAction>,
    k: int,
)
    requires
        is_register_run(req, states, events, actions),
        0 <= k < actions.len(),
        actions[k] is Create,
    ensures
        valid_input(req),
        actions[0] == RegisterAction::CheckEmail(req.email),
        events[1] == RegisterEvent::Exists(false),
        match req.username {
            Some(u) => k == 2 && actions[1] == RegisterAction::CheckUsername(u)
                && events[2] == RegisterEvent::Exists(false),
            None => k == 1,
        },
        match actions[k] {
            RegisterAction::Create(nu) => {
                &&& nu.email == req.email
                &&& nu.username == req.username
                &&& nu.first_name == req.first_name
                &&& nu.last_name == req.last_name
                &&& is_argon2id_hash_of(req.password@, nu.password_hash@)
                &&& is_uuid_v4_text(nu.jwt_secret@)
            },
            _ => false,
        },
{
    assert(run_step(states, events, actions, 0));
    assert(run_step(states, events, actions, 1));
    if k >= 2 {
        assert(run_step(states, events, actions, 2));
    }
    if k >= 3 {
        assert(run_step(states, events, actions, 3));
    }
    if k >= 4 {
        assert(run_step(states, events, actions, 4));
    }
}

// ── Updates ───────────────────────────────────────────────────────────────────

/// Check and prepare an update of a user's fields: the email must be valid
/// and the password strong (the email is checked first), then the password
/// is hashed.
pub fn prepare_update(req: RegisterRequest) -> (r: Result<UserUpdate, AuthError>)
    ensures
        (r is Ok) == (valid_input(req) && utf8_len(req.password@) <= MAX_PASSWORD_BYTES),
        match r {
            Ok(u) => {
                &&& valid_input(req)
                &&& u.email == req.email
                &&& u.username == req.username
                &&& u.first_name == req.first_name
                &&& u.last_name == req.last_name
                &&& is_argon2id_hash_of(req.password@, u.password_hash@)
            },
            Err(e) => if !valid_email(req.email@) {
                is_invalid_email_error(e, req.email@)
            } else if password_problem(req.password@) is Some {
                is_weak_password_error(e, password_problem(req.password@)->0)
            } else {
                e is HashingError
            },
        },
{
    match validate_email(req.email.as_str()) {
        Ok(()) => {},
        Err(e) => return Err(e),
    }
    match validate_password(req.password.as_str()) {
        Ok(()) => {},
        Err(e) => return Err(e),
    }
    let password_hash = match hash_password(req.password.as_str()) {
        Ok(h) => h,
        Err(e) => return Err(e),
    };
    Ok(UserUpdate {
        email: req.email,
        password_hash,
        username: req.username,
        first_name: req.first_name,
        last_name: req.last_name,
    })
}

} // verus!
