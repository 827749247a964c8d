//! OAuth 2.0 checks: requested scopes against a client's allowed scopes,
//! redirect URIs, PKCE challenges, and authorization-code consumption.
use vstd::prelude::*;
use vstd::string::*;
use crate::codec::{sha256_digest, sha256_of, base64_url_nopad_encode, base64_url_nopad_of, new_uuid_v4, uuid_text_shape};
use crate::error::{owned, concat2, not_found, is_not_found, RepositoryError};
use crate::membership::opt_owned;
use crate::text::{chars_of, str_eq, is_prefix_of, ends_with, starts_with, opt_view, opt_str_view, unicode_whitespace, is_whitespace};

verus! {

/// Authorization-code statistics for monitoring.
#[derive(Debug)]
pub struct CodeStats {
    pub total_codes: u64,
    pub used_count: u64,
    pub expired_count: u64,
}

/// `s[i..j]` is a word of `s`: a maximal run of non-whitespace characters.
pub open spec fn is_word(s: Seq<char>, i: int, j: int) -> bool {
    &&& 0 <= i < j <= s.len()
    &&& forall|k: int| i <= k < j ==> !unicode_whitespace(#[trigger] s[k])
    &&& (i == 0 || unicode_whitespace(s[i - 1]))
    &&& (j == s.len() || unicode_whitespace(s[j]))
}

/// A client that allows `allowed` may be granted the scope `requested`: an
/// allowed scope equals it, or ends with `*` and the rest prefixes it.
pub open spec fn scope_allowed(allowed: Seq<String>, requested: Seq<char>) -> bool {
    exists|a: int|
        0 <= a < allowed.len() && ({
            let s = (#[trigger] allowed[a])@;
            s == requested || (s.len() > 0 && s.last() == '*' && is_prefix_of(s.drop_last(), requested))
        })
}

/// Whether every word of `scope` is allowed.
pub open spec fn scopes_allowed(allowed: Seq<String>, scope: Seq<char>) -> bool {
    forall|i: int, j: int| #[trigger] is_word(scope, i, j) ==> scope_allowed(allowed, scope.subrange(i, j))
}

fn one_scope_allowed(allowed: &Vec<String>, requested: &str) -> (r: bool)
    ensures
        r == scope_allowed(allowed@, requested@),
{
    let mut k: usize = 0;
    while k < allowed.len()
        invariant
            k <= allowed@.len(),
            forall|a: int| 0 <= a < k ==> !({
                let s = (#[trigger] allowed@[a])@;
                s == requested@ || (s.len() > 0 && s.last() == '*' && is_prefix_of(s.drop_last(), requested@))
            }),
        decreases allowed@.len() - k,
    {
        let a = allowed[k].as_str();
        if str_eq(a, requested) {
            assert(allowed@[k as int]@ == requested@);
            return true;
        }
        if ends_with(a, "*") {
            proof {
                reveal_strlit("*");
                assert(a@.subrange(a@.len() - 1, a@.len() as int)[0] == a@.last());
            }
            let n = a.unicode_len();
            let prefix = a.substring_char(0, n - 1);
            assert(prefix@ =~= a@.drop_last());
            if starts_with(requested, prefix) {
                assert({
                    let s = allowed@[k as int]@;
                    s == requested@ || (s.len() > 0 && s.last() == '*' && is_prefix_of(s.drop_last(), requested@))
                });
                return true;
            }
        } else {
            proof {
                reveal_strlit("*");
                if a@.len() > 0 && a@.last() == '*' {
                    assert(a@.subrange(a@.len() - 1, a@.len() as int) =~= "*"@);
                }
            }
        }
        k = k + 1;
    }
    false
}

impl<D> OAuth2Repository<D> {
    /// Whether every scope requested by the space-separated `scope` is allowed
    /// for the client `client_id`, whose allowed scopes are `allowed_scopes`
    /// (`None`: the client is missing or inactive, which is a `NotFound` error).
    pub fn validate_scope(&self, client_id: &str, allowed_scopes: Option<&Vec<String>>, scope: &str) -> (r: Result<bool, RepositoryError>)
        ensures
            match allowed_scopes {
                None => r.is_err() && is_not_found(r->Err_0, "OAuth2Client"@, client_id@),
                Some(a) => r == Ok::<bool, RepositoryError>(scopes_allowed(a@, scope@)),
            },
    {
        let allowed = match allowed_scopes {
            None => { return Err(not_found("OAuth2Client", client_id)); },
            Some(a) => a,
        };
        let v = chars_of(scope);
        let n = v.len();
        let mut i: usize = 0;
        while i < n
            invariant
                v@ == scope@,
                n == scope@.len(),
                i <= n,
                allowed_scopes == Some(allowed),
                i == 0 || i == n || unicode_whitespace(v@[i - 1]) || unicode_whitespace(v@[i as int]),
                forall|a: int, b: int| #[trigger] is_word(scope@, a, b) && b <= i ==> scope_allowed(allowed@, scope@.subrange(a, b)),
                forall|a: int, b: int| #[trigger] is_word(scope@, a, b) ==> !(a < i < b),
            decreases n - i,
        {
            if is_whitespace(v[i]) {
                i = i + 1;
                proof {
                    assert forall|a: int, b: int| #[trigger] is_word(scope@, a, b) && b <= i implies scope_allowed(allowed@, scope@.subrange(a, b)) by {
                        if b == i {
                            assert(!unicode_whitespace(scope@[b - 1]));
                        }
                    }
                    assert forall|a: int, b: int| #[trigger] is_word(scope@, a, b) implies !(a < i < b) by {
                        if a < i < b {
                            assert(!unicode_whitespace(scope@[i - 1]));
                        }
                    }
                }
            } else {
                let start = i;
                while i < n && !is_whitespace(v[i])
                    invariant
                        v@ == scope@,
                        n == scope@.len(),
                        start <= i <= n,
                        forall|k: int| start <= k < i ==> !unicode_whitespace(#[trigger] scope@[k]),
                    decreases n - i,
                {
                    i = i + 1;
                }
                proof {
                    assert(is_word(scope@, start as int, i as int));
                }
                let word = scope.substring_char(start, i);
                if !one_scope_allowed(allowed, word) {
                    assert(!scope_allowed(allowed@, scope@.subrange(start as int, i as int)));
                    return Ok(false);
                }
                proof {
                    assert forall|a: int, b: int| #[trigger] is_word(scope@, a, b) && b <= i implies scope_allowed(allowed@, scope@.subrange(a, b)) by {
                        if b > start {
                            if a < start {
                                assert(!unicode_whitespace(scope@[start as int]));
                            }
                            if a > start {
                                assert(!unicode_whitespace(scope@[a - 1]));
                            }
                            if b < i {
                                assert(!unicode_whitespace(scope@[b as int]));
                            }
                            assert(a == start && b == i);
                        }
                    }
                    assert forall|a: int, b: int| #[trigger] is_word(scope@, a, b) implies !(a < i < b) by {
                        if a < i < b {
                            if i < n {
                                assert(unicode_whitespace(scope@[i as int]));
                            }
                        }
                    }
                }
            }
        }
        Ok(true)
    }
}

impl<D> OAuth2Repository<D> {
    /// Whether `redirect_uri` is registered for the client (`None`: no such client).
    pub fn validate_redirect_uri(&self, redirect_uris: Option<&Vec<String>>, redirect_uri: &str) -> (r: bool)
        ensures
            r == match redirect_uris {
                None => false,
                Some(u) => exists|i: int| 0 <= i < u@.len() && (#[trigger] u@[i])@ == redirect_uri@,
            },
    {
        let u = match redirect_uris {
            None => { return false; },
            Some(u) => u,
        };
        let mut i: usize = 0;
        while i < u.len()
            invariant
                i <= u@.len(),
                redirect_uris == Some(u),
                forall|j: int| 0 <= j < i ==> (#[trigger] u@[j])@ != redirect_uri@,
            decreases u@.len() - i,
        {
            if str_eq(u[i].as_str(), redirect_uri) {
                assert(u@[i as int]@ == redirect_uri@);
                assert(redirect_uris.unwrap() == u);
                assert(match redirect_uris {
                    None => false,
                    Some(w) => exists|j: int| 0 <= j < w@.len() && (#[trigger] w@[j])@ == redirect_uri@,
                });
                return true;
            }
            i = i + 1;
        }
        false
    }
}

impl<D> OAuth2Repository<D> {
    /// Whether a PKCE verifier answers a challenge: with `S256`, the challenge
    /// is the URL-safe unpadded base64 of the SHA-256 of the verifier's UTF-8
    /// bytes; with `plain`, the verifier itself; any other method fails.
    pub fn validate_pkce_challenge(&self, verifier: &str, challenge: &str, method: &str) -> (r: bool)
        ensures
            r == if method@ == "S256"@ {
                base64_url_nopad_of(sha256_of(verifier.spec_bytes())) == challenge@
            } else if method@ == "plain"@ {
                verifier@ == challenge@
            } else {
                false
            },
    {
        if str_eq(method, "S256") {
            let hash = sha256_digest(verifier.as_bytes());
            let encoded = base64_url_nopad_encode(hash.as_slice());
            str_eq(encoded.as_str(), challenge)
        } else if str_eq(method, "plain") {
            str_eq(verifier, challenge)
        } else {
            false
        }
    }
}

/// The scopes a client gets when it registers without naming any.
pub fn default_client_scopes() -> (r: Vec<String>)
    ensures
        r@.len() == 4,
        r@[0]@ == "openid"@,
        r@[1]@ == "profile"@,
        r@[2]@ == "email"@,
        r@[3]@ == "urn:matrix:client:api:*"@,
{
    let mut v = Vec::new();
    v.push(owned("openid"));
    v.push(owned("profile"));
    v.push(owned("email"));
    v.push(owned("urn:matrix:client:api:*"));
    v
}

/// A fresh identifier: `prefix` followed by a random hyphenated UUID.
pub fn prefixed_uuid(prefix: &str) -> (r: String)
    ensures
        r@.len() == prefix@.len() + 36,
        r@.subrange(0, prefix@.len() as int) == prefix@,
        uuid_text_shape(r@.subrange(prefix@.len() as int, r@.len() as int)),
{
    let id = new_uuid_v4();
    let r = concat2(prefix, id.as_str());
    assert(r@.subrange(0, prefix@.len() as int) =~= prefix@);
    assert(r@.subrange(prefix@.len() as int, r@.len() as int) =~= id@);
    r
}

/// A stored code can be consumed at `now`: it exists, is unused and has not expired.
pub open spec fn code_consumable(stored: Option<AuthorizationCode>, now: i64) -> bool {
    stored.is_some() && !stored.unwrap().used && now <= stored.unwrap().expires_at
}

/// The code marked used.
pub open spec fn spent(c: AuthorizationCode) -> AuthorizationCode {
    AuthorizationCode { used: true, ..c }
}

/// A code is consumed at most once: once consumption has marked it used, it
/// can never be consumed again, at any time.
pub proof fn law_code_consumed_once(c: AuthorizationCode, now: i64, later: i64)
    requires
        code_consumable(Some(c), now),
    ensures
        !code_consumable(Some(spent(c)), later),
{
}

/// An authorization code as stored; times are milliseconds since the UNIX epoch.
#[derive(Debug)]
pub struct AuthorizationCode {
    pub code: String,
    pub client_id: String,
    pub user_id: String,
    pub redirect_uri: String,
    pub scope: Option<String>,
    pub code_challenge: Option<String>,
    pub code_challenge_method: Option<String>,
    pub created_at: i64,
    pub expires_at: i64,
    pub used: bool,
}

/// A registered OAuth 2.0 client; `created_at` is in milliseconds since the
/// UNIX epoch.
#[derive(Debug)]
pub struct OAuth2Client {
    pub client_id: String,
    pub client_secret: Option<String>,
    pub client_name: String,
    pub redirect_uris: Vec<String>,
    pub client_type: String,
    pub created_at: i64,
    pub is_active: bool,
    pub allowed_scopes: Vec<String>,
}

/// How long an authorization code stays valid: ten minutes, in milliseconds.
pub const CODE_VALIDITY_MILLIS: i64 = 600_000;

/// The clients, authorization codes and checks of the OAuth 2.0 flow; the
/// handle `D` is what the caller reads and writes the store with.
pub struct OAuth2Repository<D> {
    db: D,
}

impl<D> OAuth2Repository<D> {
    /// The store handle this repository was made with.
    pub closed spec fn handle(&self) -> D {
        self.db
    }

    pub fn new(db: D) -> (r: Self)
        ensures
            r.handle() == db,
    {
        OAuth2Repository { db }
    }

    /// The store handle.
    pub fn db(&self) -> (r: &D)
        ensures
            *r == self.handle(),
    {
        &self.db
    }

    /// A new authorization code issued at `now_millis`: an `mxac_` code,
    /// unused, valid for ten minutes.
    pub fn create_authorization_code(
        &self,
        client_id: &str,
        user_id: &str,
        redirect_uri: &str,
        scope: Option<&str>,
        code_challenge: Option<&str>,
        code_challenge_method: Option<&str>,
        now_millis: i64,
    ) -> (r: AuthorizationCode)
        requires
            now_millis <= i64::MAX - CODE_VALIDITY_MILLIS,
        ensures
            r.code@.len() == 41,
            r.code@.subrange(0, 5) == "mxac_"@,
            uuid_text_shape(r.code@.subrange(5, 41)),
            r.client_id@ == client_id@,
            r.user_id@ == user_id@,
            r.redirect_uri@ == redirect_uri@,
            opt_view(r.scope) == opt_str_view(scope),
            opt_view(r.code_challenge) == opt_str_view(code_challenge),
            opt_view(r.code_challenge_method) == opt_str_view(code_challenge_method),
            r.created_at == now_millis,
            r.expires_at == now_millis + CODE_VALIDITY_MILLIS,
            !r.used,
    {
        proof { reveal_strlit("mxac_"); }
        let code = prefixed_uuid("mxac_");
        AuthorizationCode {
            code,
            client_id: owned(client_id),
            user_id: owned(user_id),
            redirect_uri: owned(redirect_uri),
            scope: opt_owned(scope),
            code_challenge: opt_owned(code_challenge),
            code_challenge_method: opt_owned(code_challenge_method),
            created_at: now_millis,
            expires_at: now_millis + CODE_VALIDITY_MILLIS,
            used: false,
        }
    }

    /// Consumes the stored code `stored` at `now_millis`: none when there is
    /// no such code, it was used, or `now_millis` is past its expiry;
    /// otherwise the code, now marked used (the caller stores that mark).
    pub fn consume_authorization_code(&self, stored: Option<AuthorizationCode>, now_millis: i64) -> (r: Option<AuthorizationCode>)
        ensures
            r.is_some() <==> code_consumable(stored, now_millis),
            r.is_some() ==> r.unwrap() == spent(stored.unwrap()),
    {
        match stored {
            None => None,
            Some(mut code) => {
                if code.used {
                    return None;
                }
                if now_millis > code.expires_at {
                    return None;
                }
                code.used = true;
                Some(code)
            },
        }
    }

    /// The stored client, when it is active.
    pub fn get_client(&self, stored: Option<OAuth2Client>) -> (r: Option<OAuth2Client>)
        ensures
            r == (match stored {
                Some(c) => if c.is_active { Some(c) } else { None },
                None => None,
            }),
    {
        match stored {
            Some(c) => if c.is_active { Some(c) } else { None },
            None => None,
        }
    }

    /// A newly registered client at `now_millis`: an `mxcl_` id, an `mxcs_`
    /// secret exactly for confidential clients, active, with the given
    /// scopes or else the default ones.
    pub fn register_client(
        &self,
        client_name: &str,
        redirect_uris: Vec<String>,
        client_type: &str,
        allowed_scopes: Option<Vec<String>>,
        now_millis: i64,
    ) -> (r: OAuth2Client)
        ensures
            r.client_id@.len() == 41,
            r.client_id@.subrange(0, 5) == "mxcl_"@,
            uuid_text_shape(r.client_id@.subrange(5, 41)),
            r.client_secret.is_some() <==> client_type@ == "confidential"@,
            r.client_secret.is_some() ==> ({
                let sec = r.client_secret.unwrap()@;
                sec.len() == 41 && sec.subrange(0, 5) == "mxcs_"@ && uuid_text_shape(sec.subrange(5, 41))
            }),
            r.client_name@ == client_name@,
            r.redirect_uris@ == redirect_uris@,
            r.client_type@ == client_type@,
            r.created_at == now_millis,
            r.is_active,
            match allowed_scopes {
                Some(a) => r.allowed_scopes@ == a@,
                None => r.allowed_scopes@.len() == 4
                    && r.allowed_scopes@[0]@ == "openid"@
                    && r.allowed_scopes@[1]@ == "profile"@
                    && r.allowed_scopes@[2]@ == "email"@
                    && r.allowed_scopes@[3]@ == "urn:matrix:client:api:*"@,
            },
    {
        proof { reveal_strlit("mxcl_"); reveal_strlit("mxcs_"); }
        let client_id = prefixed_uuid("mxcl_");
        let client_secret = if str_eq(client_type, "confidential") {
            Some(prefixed_uuid("mxcs_"))
        } else {
            None
        };
        let scopes = match allowed_scopes {
            Some(a) => a,
            None => default_client_scopes(),
        };
        OAuth2Client {
            client_id,
            client_secret,
            client_name: owned(client_name),
            redirect_uris,
            client_type: owned(client_type),
            created_at: now_millis,
            is_active: true,
            allowed_scopes: scopes,
        }
    }

    /// The statistics row of the store, which must be there.
    pub fn get_code_stats(&self, row: Option<CodeStats>) -> (r: Result<CodeStats, RepositoryError>)
        ensures
            match row {
                Some(c) => r == Ok::<CodeStats, RepositoryError>(c),
                None => r.is_err() && is_not_found(r->Err_0, "CodeStats"@, "stats"@),
            },
    {
        match row {
            Some(c) => Ok(c),
            None => Err(not_found("CodeStats", "stats")),
        }
    }
}

} // verus!
