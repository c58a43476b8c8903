//! The device-authorization side of the flow: the client-registration and
//! bearer-token artifacts, and shape validation for the three remote
//! responses. A partial response is never half-trusted: every missing field
//! is a hard protocol-shape error naming the field.

use vstd::prelude::*;

use crate::text::{
    chunks_valid, hex16, parse_fields_ts, render_fields_ts, render_record,
    lemma_render_chunks_injective,
};

verus! {

/// The mathematical view of [`ClientRegistration`].
pub struct ClientRegistrationV {
    pub client_id: Seq<char>,
    pub client_secret: Seq<char>,
    pub secret_expires_at: int,
}

impl ClientRegistrationV {
    /// A representable record.
    pub open spec fn wf(self) -> bool {
        &&& 0 <= self.secret_expires_at <= i64::MAX
        &&& self.client_id.len() <= u64::MAX
        &&& self.client_secret.len() <= u64::MAX
    }
}

/// A client registration: the first cached artifact, valid until its secret
/// expires.
#[derive(Debug)]
pub struct ClientRegistration {
    /// The registered client's ID.
    pub client_id: String,
    /// The registered client's secret.
    pub client_secret: String,
    /// When the client secret expires, in unix seconds.
    pub secret_expires_at: i64,
}

impl View for ClientRegistration {
    type V = ClientRegistrationV;

    open spec fn view(&self) -> ClientRegistrationV {
        ClientRegistrationV {
            client_id: self.client_id@,
            client_secret: self.client_secret@,
            secret_expires_at: self.secret_expires_at as int,
        }
    }
}

/// The cache-file rendering of a client-registration record.
pub open spec fn render_client(a: ClientRegistrationV) -> Seq<char> {
    render_record(seq![a.client_id, a.client_secret], a.secret_expires_at)
}

/// Equal renderings come from equal registration records.
pub proof fn lemma_render_client_injective(a1: ClientRegistrationV, a2: ClientRegistrationV)
    requires
        a1.wf(),
        a2.wf(),
        render_client(a1) == render_client(a2),
    ensures
        a1 == a2,
{
    let cs1 = seq![a1.client_id, a1.client_secret].push(hex16(a1.secret_expires_at as u64));
    let cs2 = seq![a2.client_id, a2.client_secret].push(hex16(a2.secret_expires_at as u64));
    assert(chunks_valid(cs1));
    assert(chunks_valid(cs2));
    lemma_render_chunks_injective(cs1, cs2);
    assert(cs1[0] == cs2[0]);
    assert(cs1[1] == cs2[1]);
    assert(cs1[2] == cs2[2]);
    crate::text::lemma_hex16_injective(a1.secret_expires_at as u64, a2.secret_expires_at as u64);
}

impl ClientRegistration {
    /// When the client secret expires, in unix seconds.
    pub fn expires_at(&self) -> (r: i64)
        ensures
            r as int == self@.secret_expires_at,
    {
        self.secret_expires_at
    }

    /// Serializes the registration for the cache file.
    pub fn render(&self) -> (r: String)
        requires
            0 <= self.secret_expires_at,
        ensures
            r@ == render_client(self@),
    {
        let mut fs: Vec<String> = Vec::new();
        fs.push(self.client_id.clone());
        fs.push(self.client_secret.clone());
        let r = render_fields_ts(&fs, self.secret_expires_at);
        proof {
            assert(fs.deep_view() =~= seq![self@.client_id, self@.client_secret]);
        }
        r
    }

    /// Parses a cache file. Succeeds exactly when the file is the rendering
    /// of some registration record, and then returns that record.
    pub fn parse(s: &str) -> (r: Option<ClientRegistration>)
        ensures
            match r {
                Some(a) => a@.wf() && render_client(a@) == s@,
                None => forall|av: ClientRegistrationV|
                    av.wf() ==> #[trigger] render_client(av) != s@,
            },
    {
        match parse_fields_ts(s, 2) {
            None => {
                proof {
                    assert forall|av: ClientRegistrationV|
                        av.wf() implies #[trigger] render_client(av) != s@ by {
                        let cs = seq![av.client_id, av.client_secret];
                        assert(chunks_valid(cs));
                    }
                }
                None
            },
            Some(p) => {
                let (mut fs, ts) = p;
                let secret = fs.pop().unwrap();
                let id = fs.pop().unwrap();
                let out = ClientRegistration {
                    client_id: id,
                    client_secret: secret,
                    secret_expires_at: ts,
                };
                proof {
                    assert(seq![out@.client_id, out@.client_secret] =~= p.0.deep_view());
                }
                Some(out)
            },
        }
    }
}

/// The mathematical view of [`BearerToken`].
pub struct BearerTokenV {
    pub access_token: Seq<char>,
    pub expires_at: int,
}

impl BearerTokenV {
    /// A representable record.
    pub open spec fn wf(self) -> bool {
        &&& 0 <= self.expires_at <= i64::MAX
        &&& self.access_token.len() <= u64::MAX
    }
}

/// A bearer token: the second cached artifact, the product of a completed
/// device-authorization dialogue, valid until its own expiry.
#[derive(Debug)]
pub struct BearerToken {
    /// The access token.
    pub access_token: String,
    /// When the token expires, in unix seconds.
    pub expires_at: i64,
}

impl View for BearerToken {
    type V = BearerTokenV;

    open spec fn view(&self) -> BearerTokenV {
        BearerTokenV { access_token: self.access_token@, expires_at: self.expires_at as int }
    }
}

/// The cache-file rendering of a bearer-token record.
pub open spec fn render_token(a: BearerTokenV) -> Seq<char> {
    render_record(seq![a.access_token], a.expires_at)
}

/// Equal renderings come from equal token records.
pub proof fn lemma_render_token_injective(a1: BearerTokenV, a2: BearerTokenV)
    requires
        a1.wf(),
        a2.wf(),
        render_token(a1) == render_token(a2),
    ensures
        a1 == a2,
{
    let cs1 = seq![a1.access_token].push(hex16(a1.expires_at as u64));
    let cs2 = seq![a2.access_token].push(hex16(a2.expires_at as u64));
    assert(chunks_valid(cs1));
    assert(chunks_valid(cs2));
    lemma_render_chunks_injective(cs1, cs2);
    assert(cs1[0] == cs2[0]);
    assert(cs1[1] == cs2[1]);
    crate::text::lemma_hex16_injective(a1.expires_at as u64, a2.expires_at as u64);
}

impl BearerToken {
    /// When the token expires, in unix seconds.
    pub fn expires_at(&self) -> (r: i64)
        ensures
            r as int == self@.expires_at,
    {
        self.expires_at
    }

    /// Serializes the token for the cache file.
    pub fn render(&self) -> (r: String)
        requires
            0 <= self.expires_at,
        ensures
            r@ == render_token(self@),
    {
        let mut fs: Vec<String> = Vec::new();
        fs.push(self.access_token.clone());
        let r = render_fields_ts(&fs, self.expires_at);
        proof {
            assert(fs.deep_view() =~= seq![self@.access_token]);
        }
        r
    }

    /// Parses a cache file. Succeeds exactly when the file is the rendering
    /// of some token record, and then returns that record.
    pub fn parse(s: &str) -> (r: Option<BearerToken>)
        ensures
            match r {
                Some(a) => a@.wf() && render_token(a@) == s@,
                None => forall|av: BearerTokenV| av.wf() ==> #[trigger] render_token(av) != s@,
            },
    {
        match parse_fields_ts(s, 1) {
            None => {
                proof {
                    assert forall|av: BearerTokenV|
                        av.wf() implies #[trigger] render_token(av) != s@ by {
                        let cs = seq![av.access_token];
                        assert(chunks_valid(cs));
                    }
                }
                None
            },
            Some(p) => {
                let (mut fs, ts) = p;
                let token = fs.pop().unwrap();
                let out = BearerToken { access_token: token, expires_at: ts };
                proof {
                    assert(seq![out@.access_token] =~= p.0.deep_view());
                }
                Some(out)
            },
        }
    }
}

/// The name of what `url::Url::parse` accepts and produces: `Some` holds the
/// normalized text of the parsed URL; `None` means the string is not a URL.
pub uninterp spec fn parsed_url(s: Seq<char>) -> Option<Seq<char>>;

/// Relies on `url::Url::parse`: whether a string parses as a URL, and the
/// normalized text of the result, depend on the string alone.
#[verifier::external_body]
fn parse_web_url(s: &str) -> (r: Option<String>)
    ensures
        r is Some <==> parsed_url(s@) is Some,
        r matches Some(u) ==> parsed_url(s@) == Some(u@),
{
    url::Url::parse(s).ok().map(String::from)
}

/// A `RegisterClient` response before shape validation.
pub struct RegisterClientWire {
    /// The client ID, if present.
    pub client_id: Option<String>,
    /// The client secret, if present.
    pub client_secret: Option<String>,
    /// When the client secret expires, in unix seconds.
    pub client_secret_expires_at: i64,
}

/// The view of [`RegisterClientWire`].
pub struct RegisterClientWireV {
    pub client_id: Option<Seq<char>>,
    pub client_secret: Option<Seq<char>>,
    pub client_secret_expires_at: int,
}

impl View for RegisterClientWire {
    type V = RegisterClientWireV;

    open spec fn view(&self) -> RegisterClientWireV {
        RegisterClientWireV {
            client_id: self.client_id.deep_view(),
            client_secret: self.client_secret.deep_view(),
            client_secret_expires_at: self.client_secret_expires_at as int,
        }
    }
}

/// Shape validation of a `RegisterClient` response: the result names the
/// first missing field; on success the expiry is the response's, floored at
/// zero so the record stays representable.
pub open spec fn register_client_result(w: RegisterClientWireV) -> Result<
    ClientRegistrationV,
    Seq<char>,
> {
    if w.client_id is None {
        Err("invalid RegisterClient response: missing client_id"@)
    } else if w.client_secret is None {
        Err("invalid RegisterClient response: missing client_secret"@)
    } else {
        Ok(
            ClientRegistrationV {
                client_id: w.client_id->Some_0,
                client_secret: w.client_secret->Some_0,
                secret_expires_at: if w.client_secret_expires_at < 0 {
                    0
                } else {
                    w.client_secret_expires_at
                },
            },
        )
    }
}

/// Validates the shape of a `RegisterClient` response and converts it to a
/// registration record.
pub fn validate_register_client(w: RegisterClientWire) -> (r: Result<ClientRegistration, String>)
    ensures
        match r {
            Ok(a) => {
                &&& register_client_result(w@) == Ok::<ClientRegistrationV, Seq<char>>(a@)
                &&& 0 <= a.secret_expires_at
            },
            Err(e) => register_client_result(w@) == Err::<ClientRegistrationV, Seq<char>>(e@),
        },
{
    match (w.client_id, w.client_secret) {
        (None, _) => Err(String::from_str("invalid RegisterClient response: missing client_id")),
        (Some(_), None) => Err(
            String::from_str("invalid RegisterClient response: missing client_secret"),
        ),
        (Some(id), Some(secret)) => {
            let ts: i64 = if w.client_secret_expires_at < 0 {
                0
            } else {
                w.client_secret_expires_at
            };
            Ok(ClientRegistration { client_id: id, client_secret: secret, secret_expires_at: ts })
        },
    }
}

/// A `StartDeviceAuthorization` response before shape validation.
pub struct StartDeviceAuthorizationWire {
    /// The device code, if present.
    pub device_code: Option<String>,
    /// The user code, if present.
    pub user_code: Option<String>,
    /// The verification URL with the user code embedded, if present.
    pub verification_uri_complete: Option<String>,
    /// The polling interval, in seconds.
    pub interval: i32,
    /// The challenge lifetime, in seconds.
    pub expires_in: i32,
}

/// The view of [`StartDeviceAuthorizationWire`].
pub struct StartDeviceAuthorizationWireV {
    pub device_code: Option<Seq<char>>,
    pub user_code: Option<Seq<char>>,
    pub verification_uri_complete: Option<Seq<char>>,
    pub interval: int,
    pub expires_in: int,
}

impl View for StartDeviceAuthorizationWire {
    type V = StartDeviceAuthorizationWireV;

    open spec fn view(&self) -> StartDeviceAuthorizationWireV {
        StartDeviceAuthorizationWireV {
            device_code: self.device_code.deep_view(),
            user_code: self.user_code.deep_view(),
            verification_uri_complete: self.verification_uri_complete.deep_view(),
            interval: self.interval as int,
            expires_in: self.expires_in as int,
        }
    }
}

/// The mathematical view of [`VerificationChallenge`].
pub struct VerificationChallengeV {
    pub device_code: Seq<char>,
    pub user_code: Seq<char>,
    pub verification_url: Seq<char>,
    pub poll_interval_seconds: int,
    pub lifetime_seconds: int,
}

/// An ephemeral verification challenge: it exists only within one
/// device-authorization dialogue and is never cached.
#[derive(Debug)]
pub struct VerificationChallenge {
    /// The device code to poll with.
    pub device_code: String,
    /// The user code the person enters out-of-band.
    pub user_code: String,
    /// The normalized verification URL handed to the verification prompt.
    pub verification_url: String,
    /// How long to sleep between poll attempts, in seconds.
    pub poll_interval_seconds: u64,
    /// The challenge's own lifetime, in seconds; the remote's explicit
    /// expiry signal, not this number, is what ends polling.
    pub lifetime_seconds: i64,
}

impl View for VerificationChallenge {
    type V = VerificationChallengeV;

    open spec fn view(&self) -> VerificationChallengeV {
        VerificationChallengeV {
            device_code: self.device_code@,
            user_code: self.user_code@,
            verification_url: self.verification_url@,
            poll_interval_seconds: self.poll_interval_seconds as int,
            lifetime_seconds: self.lifetime_seconds as int,
        }
    }
}

/// Shape validation of a `StartDeviceAuthorization` response: the result
/// names the first missing field; a verification URL that does not parse,
/// or a negative polling interval, is also a protocol-shape error.
pub open spec fn start_device_authorization_result(w: StartDeviceAuthorizationWireV) -> Result<
    VerificationChallengeV,
    Seq<char>,
> {
    if w.device_code is None {
        Err("invalid StartDeviceAuthorization response: missing device_code"@)
    } else if w.user_code is None {
        Err("invalid StartDeviceAuthorization response: missing user_code"@)
    } else if w.verification_uri_complete is None {
        Err("invalid StartDeviceAuthorization response: missing verification_uri_complete"@)
    } else if parsed_url(w.verification_uri_complete->Some_0) is None {
        Err("invalid StartDeviceAuthorization response: verification_uri_complete is not a valid URL"@)
    } else if w.interval < 0 {
        Err("invalid StartDeviceAuthorization response: negative interval"@)
    } else {
        Ok(
            VerificationChallengeV {
                device_code: w.device_code->Some_0,
                user_code: w.user_code->Some_0,
                verification_url: parsed_url(w.verification_uri_complete->Some_0)->Some_0,
                poll_interval_seconds: w.interval,
                lifetime_seconds: if w.expires_in < 0 {
                    0
                } else {
                    w.expires_in
                },
            },
        )
    }
}

/// Validates the shape of a `StartDeviceAuthorization` response and converts
/// it to a verification challenge.
pub fn validate_start_device_authorization(w: StartDeviceAuthorizationWire) -> (r: Result<
    VerificationChallenge,
    String,
>)
    ensures
        match r {
            Ok(c) => start_device_authorization_result(w@) == Ok::<
                VerificationChallengeV,
                Seq<char>,
            >(c@),
            Err(e) => start_device_authorization_result(w@) == Err::<
                VerificationChallengeV,
                Seq<char>,
            >(e@),
        },
{
    match (w.device_code, w.user_code, w.verification_uri_complete) {
        (None, _, _) => Err(
            String::from_str("invalid StartDeviceAuthorization response: missing device_code"),
        ),
        (Some(_), None, _) => Err(
            String::from_str("invalid StartDeviceAuthorization response: missing user_code"),
        ),
        (Some(_), Some(_), None) => Err(
            String::from_str(
                "invalid StartDeviceAuthorization response: missing verification_uri_complete",
            ),
        ),
        (Some(device_code), Some(user_code), Some(uri)) => {
            match parse_web_url(uri.as_str()) {
                None => Err(
                    String::from_str(
                        "invalid StartDeviceAuthorization response: verification_uri_complete is not a valid URL",
                    ),
                ),
                Some(verification_url) => {
                    if w.interval < 0 {
                        Err(
                            String::from_str(
                                "invalid StartDeviceAuthorization response: negative interval",
                            ),
                        )
                    } else {
                        let lifetime: i64 = if w.expires_in < 0 {
                            0
                        } else {
                            w.expires_in as i64
                        };
                        Ok(
                            VerificationChallenge {
                                device_code,
                                user_code,
                                verification_url,
                                poll_interval_seconds: w.interval as u64,
                                lifetime_seconds: lifetime,
                            },
                        )
                    }
                },
            }
        },
    }
}

/// A `CreateToken` response before shape validation.
pub struct CreateTokenWire {
    /// The access token, if present.
    pub access_token: Option<String>,
    /// The token's validity, in seconds from now.
    pub expires_in: i32,
}

/// The view of [`CreateTokenWire`].
pub struct CreateTokenWireV {
    pub access_token: Option<Seq<char>>,
    pub expires_in: int,
}

impl View for CreateTokenWire {
    type V = CreateTokenWireV;

    open spec fn view(&self) -> CreateTokenWireV {
        CreateTokenWireV {
            access_token: self.access_token.deep_view(),
            expires_in: self.expires_in as int,
        }
    }
}

/// The token's absolute expiry: `now` plus the response's validity window,
/// clamped into the representable range.
pub open spec fn token_expiry(now: int, expires_in: int) -> int {
    if now + expires_in < 0 {
        0
    } else if now + expires_in > i64::MAX {
        i64::MAX as int
    } else {
        now + expires_in
    }
}

/// Shape validation of a `CreateToken` response at time `now`: the result
/// names the missing field; on success the token's expiry is `now` plus the
/// response's validity window, clamped into the representable range.
pub open spec fn create_token_result(w: CreateTokenWireV, now: int) -> Result<
    BearerTokenV,
    Seq<char>,
> {
    match w.access_token {
        None => Err("invalid CreateToken response: missing access_token"@),
        Some(t) => Ok(BearerTokenV { access_token: t, expires_at: token_expiry(now, w.expires_in) }),
    }
}

/// Validates the shape of a `CreateToken` response received at time `now`
/// and converts it to a bearer-token record.
pub fn validate_create_token(w: CreateTokenWire, now: i64) -> (r: Result<BearerToken, String>)
    ensures
        match r {
            Ok(a) => {
                &&& create_token_result(w@, now as int) == Ok::<BearerTokenV, Seq<char>>(a@)
                &&& 0 <= a.expires_at
            },
            Err(e) => create_token_result(w@, now as int) == Err::<BearerTokenV, Seq<char>>(e@),
        },
{
    match w.access_token {
        None => Err(String::from_str("invalid CreateToken response: missing access_token")),
        Some(token) => {
            let e: i64 = w.expires_in as i64;
            let sum: i64 = if e >= 0 {
                if now > i64::MAX - e {
                    i64::MAX
                } else {
                    now + e
                }
            } else {
                if now < i64::MIN - e {
                    i64::MIN
                } else {
                    now + e
                }
            };
            let expires_at: i64 = if sum < 0 {
                0
            } else {
                sum
            };
            Ok(BearerToken { access_token: token, expires_at })
        },
    }
}

/// The remote's answer to one `CreateToken` poll attempt, as the driver
/// reports it.
pub enum PollOutcome {
    /// The user completed the grant: the token payload arrived.
    Token(CreateTokenWire),
    /// The remote's explicit "authorization pending" signal: the user has
    /// not finished the out-of-band grant yet. Not a failure.
    AuthorizationPending,
    /// The remote's explicit expiry signal: the user ran out of time.
    ExpiredChallenge,
    /// Any other remote error, with its message.
    Failed(String),
}

/// The view of [`PollOutcome`].
pub enum PollOutcomeV {
    Token(CreateTokenWireV),
    AuthorizationPending,
    ExpiredChallenge,
    Failed(Seq<char>),
}

impl View for PollOutcome {
    type V = PollOutcomeV;

    open spec fn view(&self) -> PollOutcomeV {
        match self {
            PollOutcome::Token(w) => PollOutcomeV::Token(w@),
            PollOutcome::AuthorizationPending => PollOutcomeV::AuthorizationPending,
            PollOutcome::ExpiredChallenge => PollOutcomeV::ExpiredChallenge,
            PollOutcome::Failed(m) => PollOutcomeV::Failed(m@),
        }
    }
}

} // verus!
