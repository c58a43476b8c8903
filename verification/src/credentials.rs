//! Session credentials: the end product of the flow, and the strictest of
//! the three cached artifacts — secret material must never reach diagnostic
//! output.

use vstd::prelude::*;

use crate::text::{
    chunks_valid, hex16, parse_fields_ts, render_fields_ts, render_record,
    lemma_render_chunks_injective, chars_to_string, push_chars, push_hex16,
};

verus! {

/// The mathematical view of [`SessionCredentials`].
pub struct SessionCredentialsV {
    pub access_key_id: Seq<char>,
    pub secret_access_key: Seq<char>,
    pub session_token: Seq<char>,
    pub expires_at: int,
}

impl SessionCredentialsV {
    /// A representable record: the timestamp is a non-negative unix second
    /// count and every field fits the cache-file framing.
    pub open spec fn wf(self) -> bool {
        &&& 0 <= self.expires_at <= i64::MAX
        &&& self.access_key_id.len() <= u64::MAX
        &&& self.secret_access_key.len() <= u64::MAX
        &&& self.session_token.len() <= u64::MAX
    }
}

/// Short-lived session credentials scoped to one account and role.
///
/// The secret access key and the session token are deliberately left out of
/// [`redacted`](SessionCredentials::redacted), the only human-readable
/// description this type offers.
pub struct SessionCredentials {
    /// The access key ID.
    pub access_key_id: String,
    /// The secret access key.
    pub secret_access_key: String,
    /// The session token.
    pub session_token: String,
    /// When the credentials expire, in unix seconds.
    pub expires_at: i64,
}

impl View for SessionCredentials {
    type V = SessionCredentialsV;

    open spec fn view(&self) -> SessionCredentialsV {
        SessionCredentialsV {
            access_key_id: self.access_key_id@,
            secret_access_key: self.secret_access_key@,
            session_token: self.session_token@,
            expires_at: self.expires_at as int,
        }
    }
}

impl DeepView for SessionCredentials {
    type V = SessionCredentialsV;

    open spec fn deep_view(&self) -> SessionCredentialsV {
        self.view()
    }
}

/// The cache-file rendering of a credentials record.
pub open spec fn render_credentials(a: SessionCredentialsV) -> Seq<char> {
    render_record(
        seq![a.access_key_id, a.secret_access_key, a.session_token],
        a.expires_at,
    )
}

/// Equal renderings come from equal records: the cache-file format never
/// conflates two distinct credentials values.
pub proof fn lemma_render_credentials_injective(a1: SessionCredentialsV, a2: SessionCredentialsV)
    requires
        a1.wf(),
        a2.wf(),
        render_credentials(a1) == render_credentials(a2),
    ensures
        a1 == a2,
{
    let cs1 = seq![a1.access_key_id, a1.secret_access_key, a1.session_token].push(
        hex16(a1.expires_at as u64),
    );
    let cs2 = seq![a2.access_key_id, a2.secret_access_key, a2.session_token].push(
        hex16(a2.expires_at as u64),
    );
    assert(chunks_valid(cs1));
    assert(chunks_valid(cs2));
    lemma_render_chunks_injective(cs1, cs2);
    assert(cs1[0] == cs2[0]);
    assert(cs1[1] == cs2[1]);
    assert(cs1[2] == cs2[2]);
    assert(cs1[3] == cs2[3]);
    crate::text::lemma_hex16_injective(a1.expires_at as u64, a2.expires_at as u64);
}

impl SessionCredentials {
    /// When the credentials expire, in unix seconds.
    pub fn expires_at(&self) -> (r: i64)
        ensures
            r as int == self@.expires_at,
    {
        self.expires_at
    }

    /// Serializes the credentials for the cache file.
    pub fn render(&self) -> (r: String)
        requires
            0 <= self.expires_at,
        ensures
            r@ == render_credentials(self@),
    {
        let mut fs: Vec<String> = Vec::new();
        fs.push(self.access_key_id.clone());
        fs.push(self.secret_access_key.clone());
        fs.push(self.session_token.clone());
        let r = render_fields_ts(&fs, self.expires_at);
        proof {
            assert(fs.deep_view() =~= seq![
                self@.access_key_id,
                self@.secret_access_key,
                self@.session_token,
            ]);
        }
        r
    }

    /// Parses a cache file. Succeeds exactly when the file is the rendering
    /// of some credentials record, and then returns that record.
    pub fn parse(s: &str) -> (r: Option<SessionCredentials>)
        ensures
            match r {
                Some(a) => a@.wf() && render_credentials(a@) == s@,
                None => forall|av: SessionCredentialsV|
                    av.wf() ==> #[trigger] render_credentials(av) != s@,
            },
    {
        match parse_fields_ts(s, 3) {
            None => {
                proof {
                    assert forall|av: SessionCredentialsV|
                        av.wf() implies #[trigger] render_credentials(av) != s@ by {
                        let cs = seq![av.access_key_id, av.secret_access_key, av.session_token];
                        assert(chunks_valid(cs));
                    }
                }
                None
            },
            Some(p) => {
                let (mut fs, ts) = p;
                let token = fs.pop().unwrap();
                let secret = fs.pop().unwrap();
                let key = fs.pop().unwrap();
                let out = SessionCredentials {
                    access_key_id: key,
                    secret_access_key: secret,
                    session_token: token,
                    expires_at: ts,
                };
                proof {
                    assert(seq![out@.access_key_id, out@.secret_access_key, out@.session_token]
                        =~= p.0.deep_view());
                }
                Some(out)
            },
        }
    }

    /// A human-readable description that shows only the access key ID and
    /// the expiry (as a fixed-width hexadecimal code of the unix seconds):
    /// the secret access key and the session token never appear in it.
    pub fn redacted(&self) -> (r: String)
        requires
            0 <= self.expires_at,
        ensures
            r@ == "SessionCredentials { access_key_id: "@ + self.access_key_id@
                + ", expires_at: "@ + hex16(self.expires_at as u64) + " }"@,
    {
        let mut out: Vec<char> = Vec::new();
        push_chars(&mut out, "SessionCredentials { access_key_id: ");
        push_chars(&mut out, self.access_key_id.as_str());
        push_chars(&mut out, ", expires_at: ");
        push_hex16(&mut out, self.expires_at as u64);
        push_chars(&mut out, " }");
        chars_to_string(&out)
    }
}

/// The fields of a `GetRoleCredentials` response, before shape validation:
/// the remote collaborator may omit any of them.
pub struct RoleCredentialsFields {
    /// The access key ID, if present.
    pub access_key_id: Option<String>,
    /// The secret access key, if present.
    pub secret_access_key: Option<String>,
    /// The session token, if present.
    pub session_token: Option<String>,
    /// The expiry, in unix milliseconds.
    pub expiration: i64,
}

/// A `GetRoleCredentials` response before shape validation.
pub struct RoleCredentialsWire {
    /// The credentials structure, if present.
    pub role_credentials: Option<RoleCredentialsFields>,
}

/// The view of [`RoleCredentialsFields`].
pub struct RoleCredentialsFieldsV {
    pub access_key_id: Option<Seq<char>>,
    pub secret_access_key: Option<Seq<char>>,
    pub session_token: Option<Seq<char>>,
    pub expiration: int,
}

impl View for RoleCredentialsFields {
    type V = RoleCredentialsFieldsV;

    open spec fn view(&self) -> RoleCredentialsFieldsV {
        RoleCredentialsFieldsV {
            access_key_id: self.access_key_id.deep_view(),
            secret_access_key: self.secret_access_key.deep_view(),
            session_token: self.session_token.deep_view(),
            expiration: self.expiration as int,
        }
    }
}

impl DeepView for RoleCredentialsFields {
    type V = RoleCredentialsFieldsV;

    open spec fn deep_view(&self) -> RoleCredentialsFieldsV {
        self.view()
    }
}

impl View for RoleCredentialsWire {
    type V = Option<RoleCredentialsFieldsV>;

    open spec fn view(&self) -> Option<RoleCredentialsFieldsV> {
        self.role_credentials.deep_view()
    }
}

/// Shape validation of a `GetRoleCredentials` response: a partial response
/// is never half-trusted. The result names the first missing field; on
/// success the expiry is the response's millisecond expiry in whole seconds,
/// never negative.
pub open spec fn role_credentials_result(w: Option<RoleCredentialsFieldsV>) -> Result<
    SessionCredentialsV,
    Seq<char>,
> {
    match w {
        None => Err("invalid GetRoleCredentials response: missing role_credentials"@),
        Some(f) => if f.access_key_id is None {
            Err("invalid GetRoleCredentials response: missing access_key_id"@)
        } else if f.secret_access_key is None {
            Err("invalid GetRoleCredentials response: missing secret_access_key"@)
        } else if f.session_token is None {
            Err("invalid GetRoleCredentials response: missing session_token"@)
        } else {
            Ok(
                SessionCredentialsV {
                    access_key_id: f.access_key_id->Some_0,
                    secret_access_key: f.secret_access_key->Some_0,
                    session_token: f.session_token->Some_0,
                    expires_at: if f.expiration < 0 {
                        0
                    } else {
                        f.expiration / 1000
                    },
                },
            )
        },
    }
}

/// Validates the shape of a `GetRoleCredentials` response and converts it to
/// a credentials record.
pub fn validate_role_credentials(w: RoleCredentialsWire) -> (r: Result<SessionCredentials, String>)
    ensures
        match r {
            Ok(c) => {
                &&& role_credentials_result(w.role_credentials.deep_view()) == Ok::<
                    SessionCredentialsV,
                    Seq<char>,
                >(c@)
                &&& 0 <= c.expires_at
            },
            Err(e) => role_credentials_result(w.role_credentials.deep_view()) == Err::<
                SessionCredentialsV,
                Seq<char>,
            >(e@),
        },
{
    match w.role_credentials {
        None => Err(String::from_str("invalid GetRoleCredentials response: missing role_credentials")),
        Some(f) => {
            match (f.access_key_id, f.secret_access_key, f.session_token) {
                (None, _, _) => Err(
                    String::from_str("invalid GetRoleCredentials response: missing access_key_id"),
                ),
                (Some(_), None, _) => Err(
                    String::from_str(
                        "invalid GetRoleCredentials response: missing secret_access_key",
                    ),
                ),
                (Some(_), Some(_), None) => Err(
                    String::from_str("invalid GetRoleCredentials response: missing session_token"),
                ),
                (Some(key), Some(secret), Some(token)) => {
                    let expires_at: i64 = if f.expiration < 0 {
                        0
                    } else {
                        f.expiration / 1000
                    };
                    Ok(
                        SessionCredentials {
                            access_key_id: key,
                            secret_access_key: secret,
                            session_token: token,
                            expires_at,
                        },
                    )
                },
            }
        },
    }
}

} // verus!
