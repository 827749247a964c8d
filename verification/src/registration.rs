//! Registration: user ids for new accounts, the first device and session
//! of an account, access tokens, and the registration rate limit.
use vstd::prelude::*;
use crate::codec::{new_uuid_v4, uuid_text_shape};
use crate::error::{
    RepositoryError, owned, concat2, concat3, is_unauthorized, is_validation, unauthorized, validation,
};
use crate::membership::opt_owned;
use crate::notification::secs_of_millis;
use crate::push_rule::is_database_error;
use crate::text::{str_eq, opt_view, opt_str_view};

verus! {

/// What a successful registration gives the client.
#[derive(Debug)]
pub struct RegistrationResult {
    pub user_id: String,
    pub device_id: String,
    pub access_token: String,
    pub refresh_token: Option<String>,
    pub expires_in_ms: Option<i64>,
    pub home_server: String,
}

/// A way to register: its type, stages, and parameters (each name with its
/// JSON text).
#[derive(Debug)]
pub struct AuthFlow {
    pub flow_type: String,
    pub stages: Vec<String>,
    pub params: Vec<(String, String)>,
}

/// A registration token; `expires_at` is in milliseconds since the UNIX epoch.
#[derive(Debug)]
pub struct RegistrationToken {
    pub token: String,
    pub uses_allowed: Option<i32>,
    pub uses_remaining: Option<i32>,
    pub pending: bool,
    pub completed: bool,
    pub expires_at: Option<i64>,
    pub created_by: String,
}

/// One attempt to register from an address; `timestamp` is in
/// milliseconds since the UNIX epoch.
#[derive(Debug)]
pub struct RegistrationAttempt {
    pub ip_address: String,
    pub timestamp: i64,
    pub success: bool,
    pub user_agent: Option<String>,
}

/// A device of a user; keys are JSON text, `last_seen_ts` is in seconds and
/// `created_at` in milliseconds since the UNIX epoch.
#[derive(Debug)]
pub struct Device {
    pub device_id: String,
    pub user_id: String,
    pub display_name: Option<String>,
    pub last_seen_ip: Option<String>,
    pub last_seen_ts: Option<i64>,
    pub created_at: i64,
    pub hidden: Option<bool>,
    pub device_keys: Option<String>,
    pub one_time_keys: Option<String>,
    pub fallback_keys: Option<String>,
    pub user_agent: Option<String>,
    pub initial_device_display_name: Option<String>,
}

/// A login session; times are milliseconds since the UNIX epoch.
#[derive(Debug)]
pub struct Session {
    pub session_id: String,
    pub user_id: String,
    pub device_id: String,
    pub access_token: String,
    pub refresh_token: Option<String>,
    pub created_at: i64,
    pub expires_at: Option<i64>,
    pub last_seen: Option<i64>,
    pub last_used_at: Option<i64>,
    pub last_used_ip: Option<String>,
    pub user_agent: Option<String>,
    pub is_active: bool,
    pub valid: bool,
    pub puppets_user_id: Option<String>,
    pub is_guest: bool,
}

/// How long a session lasts: 365 days, in milliseconds.
pub const SESSION_LIFETIME_MILLIS: i64 = 31_536_000_000;

/// The registration attempts an address may make per hour.
pub const REGISTRATION_ATTEMPTS_PER_HOUR: i64 = 5;

/// An access token's shape: `syt_` then 32 lowercase hex digits.
pub open spec fn access_token_shape(t: Seq<char>) -> bool {
    &&& t.len() == 36
    &&& t.subrange(0, 4) == "syt_"@
    &&& forall|i: int| 4 <= i < 36 ==> ('0' <= #[trigger] t[i] <= '9') || ('a' <= t[i] <= 'f')
}

/// `d` is the device `device_id` of `user_id` created at `now_millis`,
/// visible, with `display_name` as its current and initial name, seen now,
/// and with no keys, address or agent yet.
pub open spec fn new_device(d: Device, user_id: Seq<char>, device_id: Seq<char>, display_name: Option<Seq<char>>, now_millis: i64) -> bool {
    &&& d.device_id@ == device_id
    &&& d.user_id@ == user_id
    &&& opt_view(d.display_name) == display_name
    &&& d.last_seen_ip.is_none()
    &&& d.last_seen_ts == Some((now_millis / 1000) as i64)
    &&& d.created_at == now_millis
    &&& d.hidden == Some(false)
    &&& d.device_keys.is_none()
    &&& d.one_time_keys.is_none()
    &&& d.fallback_keys.is_none()
    &&& d.user_agent.is_none()
    &&& opt_view(d.initial_device_display_name) == display_name
}

/// A fresh access token: `syt_` and a random UUID without its hyphens.
fn new_access_token() -> (r: String)
    ensures
        access_token_shape(r@),
{
    let id = new_uuid_v4();
    let mut t = concat2("syt_", id.as_str().substring_char(0, 8));
    t.append(id.as_str().substring_char(9, 13));
    t.append(id.as_str().substring_char(14, 18));
    t.append(id.as_str().substring_char(19, 23));
    t.append(id.as_str().substring_char(24, 36));
    proof {
        reveal_strlit("syt_");
        let u = id@;
        assert(t@ =~= "syt_"@ + u.subrange(0, 8) + u.subrange(9, 13) + u.subrange(14, 18) + u.subrange(19, 23)
            + u.subrange(24, 36));
        assert(t@.subrange(0, 4) =~= "syt_"@);
        assert forall|i: int| 4 <= i < 36 implies ('0' <= #[trigger] t@[i] <= '9') || ('a' <= t@[i] <= 'f') by {
            let k = i - 4;
            let j = if k < 8 { k } else if k < 12 { k + 1 } else if k < 16 { k + 2 } else if k < 20 { k + 3 } else { k + 4 };
            assert(t@[i] == u[j]);
            assert(j != 8 && j != 13 && j != 18 && j != 23);
            assert(('0' <= u[j] <= '9') || ('a' <= u[j] <= 'f'));
        }
    }
    t
}

fn new_device_record(user_id: &str, device_id: &str, display_name: Option<&str>, now_millis: i64) -> (d: Device)
    ensures
        new_device(d, user_id@, device_id@, opt_str_view(display_name), now_millis),
{
    Device {
        device_id: owned(device_id),
        user_id: owned(user_id),
        display_name: opt_owned(display_name),
        last_seen_ip: None,
        last_seen_ts: Some(secs_of_millis(now_millis)),
        created_at: now_millis,
        hidden: Some(false),
        device_keys: None,
        one_time_keys: None,
        fallback_keys: None,
        user_agent: None,
        initial_device_display_name: opt_owned(display_name),
    }
}

/// Registration; the handle `D` is what the caller reads and writes the
/// store with.
pub struct RegistrationRepository<D> {
    db: D,
}

impl<D> RegistrationRepository<D> {
    /// The store handle this repository was made with.
    pub closed spec fn handle(&self) -> D {
        self.db
    }

    pub fn new(db: D) -> (r: Self)
        ensures
            r.handle() == db,
    {
        RegistrationRepository { db }
    }

    /// The store handle.
    pub fn db(&self) -> (r: &D)
        ensures
            *r == self.handle(),
    {
        &self.db
    }

    /// The user id a new account named `username` gets on this server.
    pub fn candidate_user_id(&self, username: &str) -> (r: String)
        ensures
            r@ == "@"@ + username@ + ":localhost"@,
    {
        concat3("@", username, ":localhost")
    }

    /// Whether a username is free: the store counts no user with its id.
    pub fn check_username_availability(&self, count: Option<i64>) -> (r: bool)
        ensures
            r == (match count {
                Some(c) => c == 0,
                None => true,
            }),
    {
        match count {
            Some(c) => c == 0,
            None => true,
        }
    }

    /// A new account's first device, at `now_millis`, and what the client
    /// gets: a fresh `syt_` access token for the device on `localhost`.
    pub fn register_user(
        &self,
        user_id: &str,
        device_id: &str,
        initial_device_display_name: Option<&str>,
        now_millis: i64,
    ) -> (r: (Device, RegistrationResult))
        ensures
            new_device(r.0, user_id@, device_id@, opt_str_view(initial_device_display_name), now_millis),
            r.1.user_id@ == user_id@,
            r.1.device_id@ == device_id@,
            access_token_shape(r.1.access_token@),
            r.1.refresh_token.is_none(),
            r.1.expires_in_ms.is_none(),
            r.1.home_server@ == "localhost"@,
    {
        let access_token = new_access_token();
        let device = new_device_record(user_id, device_id, initial_device_display_name, now_millis);
        let result = RegistrationResult {
            user_id: owned(user_id),
            device_id: owned(device_id),
            access_token,
            refresh_token: None,
            expires_in_ms: None,
            home_server: owned("localhost"),
        };
        (device, result)
    }

    /// The first device of `user_id` and its session, made at `now_millis`
    /// for the access token of an active session (`session_user`: none
    /// when there is no such session, `Some(None)` when it names no user).
    /// The token must belong to the user. The session lasts a year.
    pub fn create_initial_device(
        &self,
        user_id: &str,
        device_id: &str,
        display_name: Option<&str>,
        access_token: &str,
        session_user: Option<Option<String>>,
        now_millis: i64,
    ) -> (r: Result<(Device, Session), RepositoryError>)
        requires
            now_millis <= i64::MAX - SESSION_LIFETIME_MILLIS,
        ensures
            session_user.is_none() ==> r.is_err() && is_unauthorized(r->Err_0, "Invalid access token"@),
            session_user == Some(None::<String>) ==> r.is_err() && is_validation(
                r->Err_0,
                "user_id"@,
                "Session user_id not found"@,
            ),
            (session_user matches Some(Some(u)) && u@ != user_id@) ==> r.is_err() && is_unauthorized(
                r->Err_0,
                "Access token does not match user"@,
            ),
            (session_user matches Some(Some(u)) && u@ == user_id@) ==> r.is_ok() && ({
                let (d, s) = r->Ok_0;
                &&& new_device(d, user_id@, device_id@, opt_str_view(display_name), now_millis)
                &&& uuid_text_shape(s.session_id@)
                &&& s.user_id@ == user_id@
                &&& s.device_id@ == device_id@
                &&& s.access_token@ == access_token@
                &&& s.refresh_token.is_none()
                &&& s.created_at == now_millis
                &&& s.expires_at == Some((now_millis + SESSION_LIFETIME_MILLIS) as i64)
                &&& s.last_seen == Some(now_millis)
                &&& s.last_used_at == Some(now_millis)
                &&& s.last_used_ip.is_none()
                &&& s.user_agent.is_none()
                &&& s.is_active
                &&& s.valid
                &&& s.puppets_user_id.is_none()
                &&& !s.is_guest
            }),
    {
        let session_user_id = match session_user {
            None => {
                return Err(unauthorized(owned("Invalid access token")));
            },
            Some(None) => {
                return Err(validation("user_id", "Session user_id not found"));
            },
            Some(Some(u)) => u,
        };
        if !str_eq(session_user_id.as_str(), user_id) {
            return Err(unauthorized(owned("Access token does not match user")));
        }
        let device = new_device_record(user_id, device_id, display_name, now_millis);
        let session = Session {
            session_id: new_uuid_v4(),
            user_id: owned(user_id),
            device_id: owned(device_id),
            access_token: owned(access_token),
            refresh_token: None,
            created_at: now_millis,
            expires_at: Some(now_millis + SESSION_LIFETIME_MILLIS),
            last_seen: Some(now_millis),
            last_used_at: Some(now_millis),
            last_used_ip: None,
            user_agent: None,
            is_active: true,
            valid: true,
            puppets_user_id: None,
            is_guest: false,
        };
        Ok((device, session))
    }

    /// The created device the store gave back, or an error when it gave none.
    pub fn device_created(&self, created: Option<Device>) -> (r: Result<Device, RepositoryError>)
        ensures
            match created {
                Some(d) => r == Ok::<Device, RepositoryError>(d),
                None => r.is_err() && is_database_error(r->Err_0, "Failed to create device"@, "create"@),
            },
    {
        match created {
            Some(d) => Ok(d),
            None => Err(RepositoryError::DatabaseError {
                message: owned("Failed to create device"),
                operation: owned("create"),
            }),
        }
    }

    /// Whether an address may attempt another registration: fewer than
    /// five attempts in the last hour (absent count: none).
    pub fn check_registration_rate_limit(&self, attempts_last_hour: Option<i64>) -> (r: bool)
        ensures
            r == (match attempts_last_hour {
                Some(c) => c,
                None => 0,
            } < REGISTRATION_ATTEMPTS_PER_HOUR),
    {
        let attempts = match attempts_last_hour {
            Some(c) => c,
            None => 0,
        };
        attempts < REGISTRATION_ATTEMPTS_PER_HOUR
    }

    /// The record of an attempt to register from an address at `now_millis`.
    pub fn record_registration_attempt(&self, ip_address: &str, success: bool, now_millis: i64) -> (r: RegistrationAttempt)
        ensures
            r.ip_address@ == ip_address@,
            r.timestamp == now_millis,
            r.success == success,
            r.user_agent.is_none(),
    {
        RegistrationAttempt { ip_address: owned(ip_address), timestamp: now_millis, success, user_agent: None }
    }

    /// The ways to register: with a password, or with a registration token.
    pub fn get_registration_flows(&self) -> (r: Vec<AuthFlow>)
        ensures
            r@.len() == 2,
            r@[0].flow_type@ == "m.login.password"@,
            r@[0].stages@.len() == 1 && r@[0].stages@[0]@ == "m.login.password"@,
            r@[0].params@.len() == 0,
            r@[1].flow_type@ == "m.login.registration_token"@,
            r@[1].stages@.len() == 1 && r@[1].stages@[0]@ == "m.login.registration_token"@,
            r@[1].params@.len() == 0,
    {
        let mut flows: Vec<AuthFlow> = Vec::new();
        let mut s1: Vec<String> = Vec::new();
        s1.push(owned("m.login.password"));
        flows.push(AuthFlow { flow_type: owned("m.login.password"), stages: s1, params: Vec::new() });
        let mut s2: Vec<String> = Vec::new();
        s2.push(owned("m.login.registration_token"));
        flows.push(AuthFlow { flow_type: owned("m.login.registration_token"), stages: s2, params: Vec::new() });
        flows
    }
}

} // verus!
