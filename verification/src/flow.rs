//! The flow orchestrator: one state machine that chains the three cached
//! artifacts — client registration, bearer token, session credentials —
//! through the expiry-aware cache, the device-authorization dialogue with
//! its polling loop, and the final credentials exchange. The machine decides
//! every transition; a thin unverified driver performs each emitted action
//! (a disk read or write, a remote call, the verification prompt, a sleep)
//! and reports the outcome as the next event.
//!
//! The error classification is the load-bearing decision: cache trouble is
//! `Cache` (a caller chaining providers may try elsewhere), remote
//! rejections and malformed responses are `Api` (authoritative), and
//! verification-prompt trouble keeps its own two kinds so a caller can
//! re-prompt rather than give up.

use vstd::prelude::*;

use crate::builder::{client_name, client_name_spec, SsoConfig, SsoConfigV, SsoFlowBuilder};
use crate::cache::{
    corrupt_msg, corrupt_message, file_name_spec, fresh_at, is_fresh, read_fail_msg,
    read_fail_message, write_fail_msg, write_fail_message, Cache, CacheV, ReadOutcome,
    ReadOutcomeV,
};
use crate::credentials::{
    render_credentials, role_credentials_result, RoleCredentialsFieldsV, RoleCredentialsWire,
    SessionCredentials, SessionCredentialsV,
};
use crate::oidc::{
    create_token_result, register_client_result, render_client, render_token,
    start_device_authorization_result, validate_create_token, validate_register_client,
    validate_start_device_authorization, BearerToken, BearerTokenV, ClientRegistration,
    ClientRegistrationV, PollOutcome, PollOutcomeV, RegisterClientWire,
    StartDeviceAuthorizationWire, VerificationChallenge, VerificationChallengeV,
};

verus! {

/// An API error: a remote call returned a definitive error or a
/// structurally invalid response. Authoritative — once the provider was
/// reached, this is the flow's real failure.
#[derive(Debug)]
pub struct SsoApiError {
    /// The error message.
    pub message: String,
}

impl View for SsoApiError {
    type V = Seq<char>;

    open spec fn view(&self) -> Seq<char> {
        self.message@
    }
}

impl SsoApiError {
    /// An API error with the given message.
    pub fn new(message: String) -> (r: SsoApiError)
        ensures
            r@ == message@,
    {
        SsoApiError { message }
    }

    /// The error message.
    pub fn message(&self) -> (r: &str)
        ensures
            r@ == self@,
    {
        self.message.as_str()
    }
}

/// A cache error: a cache file was unreadable, corrupt, or unwritable.
/// Recoverable — a caller chaining providers may try another source.
#[derive(Debug)]
pub struct SsoCacheError {
    /// The error message.
    pub message: String,
}

impl View for SsoCacheError {
    type V = Seq<char>;

    open spec fn view(&self) -> Seq<char> {
        self.message@
    }
}

impl SsoCacheError {
    /// A cache error with the given message.
    pub fn new(message: String) -> (r: SsoCacheError)
        ensures
            r@ == message@,
    {
        SsoCacheError { message }
    }

    /// The error message.
    pub fn message(&self) -> (r: &str)
        ensures
            r@ == self@,
    {
        self.message.as_str()
    }
}

/// The view of [`SsoFlowError`].
pub enum FlowErrorV<P> {
    Api(Seq<char>),
    Cache(Seq<char>),
    VerificationPrompt(P),
    VerificationPromptTimeout,
}

/// An error that ended the flow, classified for provider-chaining callers.
#[derive(Debug)]
pub enum SsoFlowError<P> {
    /// A remote call returned a definitive error or a structurally invalid
    /// response.
    Api(SsoApiError),
    /// A cache file was unreadable, corrupt, or unwritable.
    Cache(SsoCacheError),
    /// The verification prompt itself failed: the flow could not even ask
    /// the user. Distinct from `Api` so a chaining caller can tell "could
    /// not ask" from "the provider said no".
    VerificationPrompt(P),
    /// The user ran out of time: the remote reported the challenge expired.
    VerificationPromptTimeout,
}

impl<P> View for SsoFlowError<P> {
    type V = FlowErrorV<P>;

    open spec fn view(&self) -> FlowErrorV<P> {
        match self {
            SsoFlowError::Api(e) => FlowErrorV::Api(e@),
            SsoFlowError::Cache(e) => FlowErrorV::Cache(e@),
            SsoFlowError::VerificationPrompt(p) => FlowErrorV::VerificationPrompt(*p),
            SsoFlowError::VerificationPromptTimeout => FlowErrorV::VerificationPromptTimeout,
        }
    }
}

/// The view of [`Stage`].
pub enum StageV {
    Init,
    ClientRead,
    ClientCall,
    ClientWrite { client: ClientRegistrationV },
    TokenRead { client: ClientRegistrationV },
    TokenAuthorize { client: ClientRegistrationV },
    TokenPrompt { client: ClientRegistrationV, challenge: VerificationChallengeV },
    TokenPoll { client: ClientRegistrationV, challenge: VerificationChallengeV },
    TokenSleep { client: ClientRegistrationV, challenge: VerificationChallengeV },
    TokenWrite { token: BearerTokenV },
    CredsRead { token: BearerTokenV },
    CredsCall { token: BearerTokenV },
    CredsWrite { creds: SessionCredentialsV },
    Done,
    Failed,
}

/// Where the machine stands: which action is outstanding, and what it
/// carries forward.
pub enum Stage {
    /// Nothing has happened yet; `start` emits the first action.
    Init,
    /// Awaiting the client-registration cache read.
    ClientRead,
    /// Awaiting the `RegisterClient` response.
    ClientCall,
    /// Awaiting the client-registration cache write.
    ClientWrite {
        /// The freshly registered client.
        client: ClientRegistration,
    },
    /// Awaiting the bearer-token cache read.
    TokenRead {
        /// The client registration in force.
        client: ClientRegistration,
    },
    /// Awaiting the `StartDeviceAuthorization` response.
    TokenAuthorize {
        /// The client registration in force.
        client: ClientRegistration,
    },
    /// Awaiting the verification prompt's outcome.
    TokenPrompt {
        /// The client registration in force.
        client: ClientRegistration,
        /// The live verification challenge.
        challenge: VerificationChallenge,
    },
    /// Awaiting one `CreateToken` poll outcome.
    TokenPoll {
        /// The client registration in force.
        client: ClientRegistration,
        /// The live verification challenge.
        challenge: VerificationChallenge,
    },
    /// Awaiting the sleep between poll attempts.
    TokenSleep {
        /// The client registration in force.
        client: ClientRegistration,
        /// The live verification challenge.
        challenge: VerificationChallenge,
    },
    /// Awaiting the bearer-token cache write.
    TokenWrite {
        /// The freshly obtained token.
        token: BearerToken,
    },
    /// Awaiting the session-credentials cache read.
    CredsRead {
        /// The bearer token in force.
        token: BearerToken,
    },
    /// Awaiting the `GetRoleCredentials` response.
    CredsCall {
        /// The bearer token in force.
        token: BearerToken,
    },
    /// Awaiting the session-credentials cache write.
    CredsWrite {
        /// The credentials about to be delivered.
        creds: SessionCredentials,
    },
    /// The flow delivered credentials.
    Done,
    /// The flow failed; the error went out with the final action.
    Failed,
}

impl View for Stage {
    type V = StageV;

    open spec fn view(&self) -> StageV {
        match self {
            Stage::Init => StageV::Init,
            Stage::ClientRead => StageV::ClientRead,
            Stage::ClientCall => StageV::ClientCall,
            Stage::ClientWrite { client } => StageV::ClientWrite { client: client@ },
            Stage::TokenRead { client } => StageV::TokenRead { client: client@ },
            Stage::TokenAuthorize { client } => StageV::TokenAuthorize { client: client@ },
            Stage::TokenPrompt { client, challenge } => StageV::TokenPrompt {
                client: client@,
                challenge: challenge@,
            },
            Stage::TokenPoll { client, challenge } => StageV::TokenPoll {
                client: client@,
                challenge: challenge@,
            },
            Stage::TokenSleep { client, challenge } => StageV::TokenSleep {
                client: client@,
                challenge: challenge@,
            },
            Stage::TokenWrite { token } => StageV::TokenWrite { token: token@ },
            Stage::CredsRead { token } => StageV::CredsRead { token: token@ },
            Stage::CredsCall { token } => StageV::CredsCall { token: token@ },
            Stage::CredsWrite { creds } => StageV::CredsWrite { creds: creds@ },
            Stage::Done => StageV::Done,
            Stage::Failed => StageV::Failed,
        }
    }
}

/// The view of [`Event`].
pub enum EventV<P> {
    CacheRead(ReadOutcomeV),
    Registered(Result<crate::oidc::RegisterClientWireV, Seq<char>>),
    AuthorizationStarted(Result<crate::oidc::StartDeviceAuthorizationWireV, Seq<char>>),
    Prompted(Result<(), P>),
    Polled(PollOutcomeV),
    Slept,
    CredentialsFetched(Result<Option<RoleCredentialsFieldsV>, Seq<char>>),
    CacheWritten(Result<(), Seq<char>>),
}

/// What the driver reports back after performing an action.
pub enum Event<P> {
    /// The outcome of a cache-file read.
    CacheRead(ReadOutcome),
    /// The `RegisterClient` response, or the remote error's message.
    Registered(Result<RegisterClientWire, String>),
    /// The `StartDeviceAuthorization` response, or the remote error's
    /// message.
    AuthorizationStarted(Result<StartDeviceAuthorizationWire, String>),
    /// The verification prompt's outcome, with the prompt's own error kept
    /// intact.
    Prompted(Result<(), P>),
    /// The outcome of one `CreateToken` poll attempt.
    Polled(PollOutcome),
    /// The sleep between poll attempts finished.
    Slept,
    /// The `GetRoleCredentials` response, or the remote error's message.
    CredentialsFetched(Result<RoleCredentialsWire, String>),
    /// The outcome of a cache-file write; the payload describes a failure.
    CacheWritten(Result<(), String>),
}

impl<P> View for Event<P> {
    type V = EventV<P>;

    open spec fn view(&self) -> EventV<P> {
        match self {
            Event::CacheRead(o) => EventV::CacheRead(o@),
            Event::Registered(r) => EventV::Registered(
                match r {
                    Ok(w) => Ok(w@),
                    Err(m) => Err(m@),
                },
            ),
            Event::AuthorizationStarted(r) => EventV::AuthorizationStarted(
                match r {
                    Ok(w) => Ok(w@),
                    Err(m) => Err(m@),
                },
            ),
            Event::Prompted(r) => EventV::Prompted(
                match r {
                    Ok(u) => Ok(*u),
                    Err(p) => Err(*p),
                },
            ),
            Event::Polled(o) => EventV::Polled(o@),
            Event::Slept => EventV::Slept,
            Event::CredentialsFetched(r) => EventV::CredentialsFetched(
                match r {
                    Ok(w) => Ok(w@),
                    Err(m) => Err(m@),
                },
            ),
            Event::CacheWritten(r) => EventV::CacheWritten(
                match r {
                    Ok(u) => Ok(*u),
                    Err(m) => Err(m@),
                },
            ),
        }
    }
}

/// The view of [`Action`].
pub enum ActionV<P> {
    ReadCache { path: Seq<char> },
    CallRegisterClient { client_name: Seq<char> },
    CallStartDeviceAuthorization {
        client_id: Seq<char>,
        client_secret: Seq<char>,
        start_url: Seq<char>,
    },
    Prompt { verification_url: Seq<char> },
    CallCreateToken {
        client_id: Seq<char>,
        client_secret: Seq<char>,
        device_code: Seq<char>,
        user_code: Seq<char>,
    },
    CallGetRoleCredentials {
        access_token: Seq<char>,
        account_id: Seq<char>,
        role_name: Seq<char>,
    },
    Sleep { seconds: int },
    WriteCache { path: Seq<char>, content: Seq<char> },
    Finish(Result<SessionCredentialsV, FlowErrorV<P>>),
}

/// What the driver must do next.
pub enum Action<P> {
    /// Read the cache file at `path` and report a [`Event::CacheRead`].
    ReadCache {
        /// The file to read.
        path: String,
    },
    /// Call `RegisterClient` under this client name and report a
    /// [`Event::Registered`].
    CallRegisterClient {
        /// The client name to register.
        client_name: String,
    },
    /// Call `StartDeviceAuthorization` and report a
    /// [`Event::AuthorizationStarted`].
    CallStartDeviceAuthorization {
        /// The registered client's ID.
        client_id: String,
        /// The registered client's secret.
        client_secret: String,
        /// The portal start URL.
        start_url: String,
    },
    /// Run the verification prompt on this URL and report a
    /// [`Event::Prompted`]. Polling begins only after the prompt succeeds.
    Prompt {
        /// The verification URL the user must visit.
        verification_url: String,
    },
    /// Call `CreateToken` once with the device-code grant and report a
    /// [`Event::Polled`].
    CallCreateToken {
        /// The registered client's ID.
        client_id: String,
        /// The registered client's secret.
        client_secret: String,
        /// The challenge's device code.
        device_code: String,
        /// The challenge's user code.
        user_code: String,
    },
    /// Call `GetRoleCredentials` and report a
    /// [`Event::CredentialsFetched`].
    CallGetRoleCredentials {
        /// The bearer token.
        access_token: String,
        /// The account to sign in to.
        account_id: String,
        /// The role to assume.
        role_name: String,
    },
    /// Sleep this many seconds, then report [`Event::Slept`].
    Sleep {
        /// The challenge's polling interval.
        seconds: u64,
    },
    /// Write `content` to the cache file at `path` and report a
    /// [`Event::CacheWritten`].
    WriteCache {
        /// The file to write.
        path: String,
        /// The file's new content.
        content: String,
    },
    /// The flow is over: deliver this result to the caller.
    Finish(Result<SessionCredentials, SsoFlowError<P>>),
}

impl<P> View for Action<P> {
    type V = ActionV<P>;

    open spec fn view(&self) -> ActionV<P> {
        match self {
            Action::ReadCache { path } => ActionV::ReadCache { path: path@ },
            Action::CallRegisterClient { client_name } => ActionV::CallRegisterClient {
                client_name: client_name@,
            },
            Action::CallStartDeviceAuthorization { client_id, client_secret, start_url } => ActionV::CallStartDeviceAuthorization {
                client_id: client_id@,
                client_secret: client_secret@,
                start_url: start_url@,
            },
            Action::Prompt { verification_url } => ActionV::Prompt {
                verification_url: verification_url@,
            },
            Action::CallCreateToken { client_id, client_secret, device_code, user_code } => ActionV::CallCreateToken {
                client_id: client_id@,
                client_secret: client_secret@,
                device_code: device_code@,
                user_code: user_code@,
            },
            Action::CallGetRoleCredentials { access_token, account_id, role_name } => ActionV::CallGetRoleCredentials {
                access_token: access_token@,
                account_id: account_id@,
                role_name: role_name@,
            },
            Action::Sleep { seconds } => ActionV::Sleep { seconds: *seconds as int },
            Action::WriteCache { path, content } => ActionV::WriteCache {
                path: path@,
                content: content@,
            },
            Action::Finish(r) => ActionV::Finish(
                match r {
                    Ok(c) => Ok(c@),
                    Err(e) => Err(e@),
                },
            ),
        }
    }
}

/// The cache-file path for an artifact kind, `None` when caching is
/// disabled.
pub open spec fn cache_path_spec(c: CacheV, prefix: Seq<char>) -> Option<Seq<char>> {
    match c.dir {
        None => None,
        Some(d) => Some(d + "/"@ + file_name_spec(prefix, c.suffix)),
    }
}

/// Which event a stage awaits: the machine's protocol with its driver.
pub open spec fn expects_spec<P>(st: StageV, ev: EventV<P>) -> bool {
    match st {
        StageV::Init => false,
        StageV::ClientRead => ev is CacheRead,
        StageV::ClientCall => ev is Registered,
        StageV::ClientWrite { .. } => ev is CacheWritten,
        StageV::TokenRead { .. } => ev is CacheRead,
        StageV::TokenAuthorize { .. } => ev is AuthorizationStarted,
        StageV::TokenPrompt { .. } => ev is Prompted,
        StageV::TokenPoll { .. } => ev is Polled,
        StageV::TokenSleep { .. } => ev is Slept,
        StageV::TokenWrite { .. } => ev is CacheWritten,
        StageV::CredsRead { .. } => ev is CacheRead,
        StageV::CredsCall { .. } => ev is CredentialsFetched,
        StageV::CredsWrite { .. } => ev is CacheWritten,
        StageV::Done => false,
        StageV::Failed => false,
    }
}

/// A failure transition: the machine stops and the error goes out with the
/// final action.
pub open spec fn fail_with<P>(e: FlowErrorV<P>) -> (StageV, ActionV<P>) {
    (StageV::Failed, ActionV::Finish(Err(e)))
}

/// Entering the token stage with a client registration in force: read the
/// token cache if caching is enabled, else start the device-authorization
/// dialogue at once.
pub open spec fn enter_token_spec<P>(c: CacheV, conf: SsoConfigV, client: ClientRegistrationV) -> (
    StageV,
    ActionV<P>,
) {
    match cache_path_spec(c, "token"@) {
        Some(p) => (StageV::TokenRead { client }, ActionV::ReadCache { path: p }),
        None => (
            StageV::TokenAuthorize { client },
            ActionV::CallStartDeviceAuthorization {
                client_id: client.client_id,
                client_secret: client.client_secret,
                start_url: conf.start_url,
            },
        ),
    }
}

/// Entering the credentials stage with a bearer token in force: read the
/// credentials cache if caching is enabled, else exchange the token at
/// once.
pub open spec fn enter_creds_spec<P>(c: CacheV, conf: SsoConfigV, token: BearerTokenV) -> (
    StageV,
    ActionV<P>,
) {
    match cache_path_spec(c, "credentials"@) {
        Some(p) => (StageV::CredsRead { token }, ActionV::ReadCache { path: p }),
        None => (
            StageV::CredsCall { token },
            ActionV::CallGetRoleCredentials {
                access_token: token.access_token,
                account_id: conf.account_id,
                role_name: conf.role_name,
            },
        ),
    }
}

/// Delivering a freshly obtained client registration: write it to the cache
/// if caching is enabled, else move on to the token stage.
pub open spec fn client_obtained_spec<P>(
    c: CacheV,
    conf: SsoConfigV,
    client: ClientRegistrationV,
) -> (StageV, ActionV<P>) {
    match cache_path_spec(c, "client"@) {
        Some(p) => (
            StageV::ClientWrite { client },
            ActionV::WriteCache { path: p, content: render_client(client) },
        ),
        None => enter_token_spec(c, conf, client),
    }
}

/// Delivering a freshly obtained bearer token: write it to the cache if
/// caching is enabled, else move on to the credentials stage.
pub open spec fn token_obtained_spec<P>(c: CacheV, conf: SsoConfigV, token: BearerTokenV) -> (
    StageV,
    ActionV<P>,
) {
    match cache_path_spec(c, "token"@) {
        Some(p) => (
            StageV::TokenWrite { token },
            ActionV::WriteCache { path: p, content: render_token(token) },
        ),
        None => enter_creds_spec(c, conf, token),
    }
}

/// Delivering freshly obtained credentials: write them to the cache if
/// caching is enabled, else finish at once.
pub open spec fn creds_obtained_spec<P>(c: CacheV, creds: SessionCredentialsV) -> (
    StageV,
    ActionV<P>,
) {
    match cache_path_spec(c, "credentials"@) {
        Some(p) => (
            StageV::CredsWrite { creds },
            ActionV::WriteCache { path: p, content: render_credentials(creds) },
        ),
        None => (StageV::Done, ActionV::Finish(Ok(creds))),
    }
}

/// The first action of a flow: read the client-registration cache if
/// caching is enabled, else register at once.
pub open spec fn start_spec<P>(c: CacheV) -> (StageV, ActionV<P>) {
    match cache_path_spec(c, "client"@) {
        Some(p) => (StageV::ClientRead, ActionV::ReadCache { path: p }),
        None => (
            StageV::ClientCall,
            ActionV::CallRegisterClient { client_name: client_name_spec() },
        ),
    }
}

/// The client-registration cache read's effect. A hit that outlives the
/// skew margin is used without registering; a miss or a stale hit falls
/// through to registration; corruption and unreadable files are fatal cache
/// errors, never silently recomputed.
pub open spec fn client_read_spec<P>(
    c: CacheV,
    conf: SsoConfigV,
    out: ReadOutcomeV,
    now: int,
) -> (StageV, ActionV<P>) {
    let path = cache_path_spec(c, "client"@)->Some_0;
    match out {
        ReadOutcomeV::Absent => (
            StageV::ClientCall,
            ActionV::CallRegisterClient { client_name: client_name_spec() },
        ),
        ReadOutcomeV::Unreadable(d) => fail_with(FlowErrorV::Cache(read_fail_msg(path, d))),
        ReadOutcomeV::Found(content) => {
            if exists|v: ClientRegistrationV| v.wf() && render_client(v) == content {
                let v = choose|v: ClientRegistrationV| v.wf() && render_client(v) == content;
                if fresh_at(v.secret_expires_at, now) {
                    enter_token_spec(c, conf, v)
                } else {
                    (
                        StageV::ClientCall,
                        ActionV::CallRegisterClient { client_name: client_name_spec() },
                    )
                }
            } else {
                fail_with(FlowErrorV::Cache(corrupt_msg(path)))
            }
        },
    }
}

/// The bearer-token cache read's effect. A fresh hit skips the whole
/// device-authorization dialogue: the user is never prompted.
pub open spec fn token_read_spec<P>(
    c: CacheV,
    conf: SsoConfigV,
    client: ClientRegistrationV,
    out: ReadOutcomeV,
    now: int,
) -> (StageV, ActionV<P>) {
    let path = cache_path_spec(c, "token"@)->Some_0;
    match out {
        ReadOutcomeV::Absent => (
            StageV::TokenAuthorize { client },
            ActionV::CallStartDeviceAuthorization {
                client_id: client.client_id,
                client_secret: client.client_secret,
                start_url: conf.start_url,
            },
        ),
        ReadOutcomeV::Unreadable(d) => fail_with(FlowErrorV::Cache(read_fail_msg(path, d))),
        ReadOutcomeV::Found(content) => {
            if exists|v: BearerTokenV| v.wf() && render_token(v) == content {
                let v = choose|v: BearerTokenV| v.wf() && render_token(v) == content;
                if fresh_at(v.expires_at, now) {
                    enter_creds_spec(c, conf, v)
                } else {
                    (
                        StageV::TokenAuthorize { client },
                        ActionV::CallStartDeviceAuthorization {
                            client_id: client.client_id,
                            client_secret: client.client_secret,
                            start_url: conf.start_url,
                        },
                    )
                }
            } else {
                fail_with(FlowErrorV::Cache(corrupt_msg(path)))
            }
        },
    }
}

/// The session-credentials cache read's effect.
pub open spec fn creds_read_spec<P>(
    c: CacheV,
    conf: SsoConfigV,
    token: BearerTokenV,
    out: ReadOutcomeV,
    now: int,
) -> (StageV, ActionV<P>) {
    let path = cache_path_spec(c, "credentials"@)->Some_0;
    match out {
        ReadOutcomeV::Absent => (
            StageV::CredsCall { token },
            ActionV::CallGetRoleCredentials {
                access_token: token.access_token,
                account_id: conf.account_id,
                role_name: conf.role_name,
            },
        ),
        ReadOutcomeV::Unreadable(d) => fail_with(FlowErrorV::Cache(read_fail_msg(path, d))),
        ReadOutcomeV::Found(content) => {
            if exists|v: SessionCredentialsV| v.wf() && render_credentials(v) == content {
                let v = choose|v: SessionCredentialsV| v.wf() && render_credentials(v) == content;
                if fresh_at(v.expires_at, now) {
                    (StageV::Done, ActionV::Finish(Ok(v)))
                } else {
                    (
                        StageV::CredsCall { token },
                        ActionV::CallGetRoleCredentials {
                            access_token: token.access_token,
                            account_id: conf.account_id,
                            role_name: conf.role_name,
                        },
                    )
                }
            } else {
                fail_with(FlowErrorV::Cache(corrupt_msg(path)))
            }
        },
    }
}

/// One poll outcome's effect. "Authorization pending" is the expected
/// steady state while waiting on a human: sleep, then poll again. The
/// remote's expiry signal is the verification-prompt timeout, distinct from
/// every other remote error; any other remote error is an authoritative
/// `Api` failure.
pub open spec fn poll_spec<P>(
    c: CacheV,
    conf: SsoConfigV,
    client: ClientRegistrationV,
    challenge: VerificationChallengeV,
    out: PollOutcomeV,
    now: int,
) -> (StageV, ActionV<P>) {
    match out {
        PollOutcomeV::AuthorizationPending => (
            StageV::TokenSleep { client, challenge },
            ActionV::Sleep { seconds: challenge.poll_interval_seconds },
        ),
        PollOutcomeV::ExpiredChallenge => fail_with(FlowErrorV::VerificationPromptTimeout),
        PollOutcomeV::Failed(m) => fail_with(FlowErrorV::Api(m)),
        PollOutcomeV::Token(w) => match create_token_result(w, now) {
            Err(e) => fail_with(FlowErrorV::Api(e)),
            Ok(token) => token_obtained_spec(c, conf, token),
        },
    }
}

/// The machine's whole transition relation: what one event does to one
/// stage, and which action comes out.
pub open spec fn step_spec<P>(
    c: CacheV,
    conf: SsoConfigV,
    st: StageV,
    ev: EventV<P>,
    now: int,
) -> (StageV, ActionV<P>) {
    match (st, ev) {
        (StageV::ClientRead, EventV::CacheRead(out)) => client_read_spec(c, conf, out, now),
        (StageV::ClientCall, EventV::Registered(res)) => match res {
            Err(m) => fail_with(FlowErrorV::Api(m)),
            Ok(w) => match register_client_result(w) {
                Err(e) => fail_with(FlowErrorV::Api(e)),
                Ok(client) => client_obtained_spec(c, conf, client),
            },
        },
        (StageV::ClientWrite { client }, EventV::CacheWritten(res)) => match res {
            Err(d) => fail_with(
                FlowErrorV::Cache(write_fail_msg(cache_path_spec(c, "client"@)->Some_0, d)),
            ),
            Ok(_) => enter_token_spec(c, conf, client),
        },
        (StageV::TokenRead { client }, EventV::CacheRead(out)) => token_read_spec(
            c,
            conf,
            client,
            out,
            now,
        ),
        (StageV::TokenAuthorize { client }, EventV::AuthorizationStarted(res)) => match res {
            Err(m) => fail_with(FlowErrorV::Api(m)),
            Ok(w) => match start_device_authorization_result(w) {
                Err(e) => fail_with(FlowErrorV::Api(e)),
                Ok(challenge) => (
                    StageV::TokenPrompt { client, challenge },
                    ActionV::Prompt { verification_url: challenge.verification_url },
                ),
            },
        },
        (StageV::TokenPrompt { client, challenge }, EventV::Prompted(res)) => match res {
            Err(p) => fail_with(FlowErrorV::VerificationPrompt(p)),
            Ok(_) => (
                StageV::TokenPoll { client, challenge },
                ActionV::CallCreateToken {
                    client_id: client.client_id,
                    client_secret: client.client_secret,
                    device_code: challenge.device_code,
                    user_code: challenge.user_code,
                },
            ),
        },
        (StageV::TokenPoll { client, challenge }, EventV::Polled(out)) => poll_spec(
            c,
            conf,
            client,
            challenge,
            out,
            now,
        ),
        (StageV::TokenSleep { client, challenge }, EventV::Slept) => (
            StageV::TokenPoll { client, challenge },
            ActionV::CallCreateToken {
                client_id: client.client_id,
                client_secret: client.client_secret,
                device_code: challenge.device_code,
                user_code: challenge.user_code,
            },
        ),
        (StageV::TokenWrite { token }, EventV::CacheWritten(res)) => match res {
            Err(d) => fail_with(
                FlowErrorV::Cache(write_fail_msg(cache_path_spec(c, "token"@)->Some_0, d)),
            ),
            Ok(_) => enter_creds_spec(c, conf, token),
        },
        (StageV::CredsRead { token }, EventV::CacheRead(out)) => creds_read_spec(
            c,
            conf,
            token,
            out,
            now,
        ),
        (StageV::CredsCall { token }, EventV::CredentialsFetched(res)) => match res {
            Err(m) => fail_with(FlowErrorV::Api(m)),
            Ok(w) => match role_credentials_result(w) {
                Err(e) => fail_with(FlowErrorV::Api(e)),
                Ok(creds) => creds_obtained_spec(c, creds),
            },
        },
        (StageV::CredsWrite { creds }, EventV::CacheWritten(res)) => match res {
            Err(d) => fail_with(
                FlowErrorV::Cache(write_fail_msg(cache_path_spec(c, "credentials"@)->Some_0, d)),
            ),
            Ok(_) => (StageV::Done, ActionV::Finish(Ok(creds))),
        },
        _ => (st, ActionV::Finish(Err(FlowErrorV::VerificationPromptTimeout))),
    }
}

/// The stages only a cache-enabled flow can stand in: every outstanding
/// read or write presupposes a cache directory.
pub open spec fn stage_wf(c: CacheV, st: StageV) -> bool {
    match st {
        StageV::ClientRead => c.dir is Some,
        StageV::ClientWrite { .. } => c.dir is Some,
        StageV::TokenRead { .. } => c.dir is Some,
        StageV::TokenWrite { .. } => c.dir is Some,
        StageV::CredsRead { .. } => c.dir is Some,
        StageV::CredsWrite { .. } => c.dir is Some,
        _ => true,
    }
}

/// The view of [`SsoFlow`].
pub struct SsoFlowV {
    pub cache: CacheV,
    pub config: SsoConfigV,
    pub stage: StageV,
}

/// A configured authentication flow: the cache identity, the four
/// configuration parameters, and the machine's stage. The driver performs
/// each emitted [`Action`] and feeds the outcome back through
/// [`step`](SsoFlow::step).
pub struct SsoFlow {
    /// The cache identity.
    pub cache: Cache,
    /// The flow's configuration.
    pub config: SsoConfig,
    /// The machine's stage.
    pub stage: Stage,
}

impl View for SsoFlow {
    type V = SsoFlowV;

    open spec fn view(&self) -> SsoFlowV {
        SsoFlowV { cache: self.cache@, config: self.config@, stage: self.stage@ }
    }
}

fn fail<P>(cache: Cache, config: SsoConfig, e: SsoFlowError<P>) -> (r: (SsoFlow, Action<P>))
    ensures
        r.0@.cache == cache@,
        r.0@.config == config@,
        (r.0@.stage, r.1@) == fail_with::<P>(e@),
        stage_wf(cache@, r.0@.stage),
{
    (SsoFlow { cache, config, stage: Stage::Failed }, Action::Finish(Err(e)))
}

fn enter_token<P>(cache: Cache, config: SsoConfig, client: ClientRegistration) -> (r: (
    SsoFlow,
    Action<P>,
))
    ensures
        r.0@.cache == cache@,
        r.0@.config == config@,
        (r.0@.stage, r.1@) == enter_token_spec::<P>(cache@, config@, client@),
        stage_wf(cache@, r.0@.stage),
{
    let path = cache.path_for("token");
    match path {
        Some(path) => (
            SsoFlow { cache, config, stage: Stage::TokenRead { client } },
            Action::ReadCache { path },
        ),
        None => {
            let a = Action::CallStartDeviceAuthorization {
                client_id: client.client_id.clone(),
                client_secret: client.client_secret.clone(),
                start_url: config.start_url.clone(),
            };
            (SsoFlow { cache, config, stage: Stage::TokenAuthorize { client } }, a)
        },
    }
}

fn enter_creds<P>(cache: Cache, config: SsoConfig, token: BearerToken) -> (r: (SsoFlow, Action<P>))
    ensures
        r.0@.cache == cache@,
        r.0@.config == config@,
        (r.0@.stage, r.1@) == enter_creds_spec::<P>(cache@, config@, token@),
        stage_wf(cache@, r.0@.stage),
{
    let path = cache.path_for("credentials");
    match path {
        Some(path) => (
            SsoFlow { cache, config, stage: Stage::CredsRead { token } },
            Action::ReadCache { path },
        ),
        None => {
            let a = Action::CallGetRoleCredentials {
                access_token: token.access_token.clone(),
                account_id: config.account_id.clone(),
                role_name: config.role_name.clone(),
            };
            (SsoFlow { cache, config, stage: Stage::CredsCall { token } }, a)
        },
    }
}

fn client_obtained<P>(cache: Cache, config: SsoConfig, client: ClientRegistration) -> (r: (
    SsoFlow,
    Action<P>,
))
    requires
        0 <= client.secret_expires_at,
    ensures
        r.0@.cache == cache@,
        r.0@.config == config@,
        (r.0@.stage, r.1@) == client_obtained_spec::<P>(cache@, config@, client@),
        stage_wf(cache@, r.0@.stage),
{
    let path = cache.path_for("client");
    match path {
        Some(path) => {
            let content = client.render();
            (
                SsoFlow { cache, config, stage: Stage::ClientWrite { client } },
                Action::WriteCache { path, content },
            )
        },
        None => enter_token(cache, config, client),
    }
}

fn token_obtained<P>(cache: Cache, config: SsoConfig, token: BearerToken) -> (r: (
    SsoFlow,
    Action<P>,
))
    requires
        0 <= token.expires_at,
    ensures
        r.0@.cache == cache@,
        r.0@.config == config@,
        (r.0@.stage, r.1@) == token_obtained_spec::<P>(cache@, config@, token@),
        stage_wf(cache@, r.0@.stage),
{
    let path = cache.path_for("token");
    match path {
        Some(path) => {
            let content = token.render();
            (
                SsoFlow { cache, config, stage: Stage::TokenWrite { token } },
                Action::WriteCache { path, content },
            )
        },
        None => enter_creds(cache, config, token),
    }
}

fn creds_obtained<P>(cache: Cache, config: SsoConfig, creds: SessionCredentials) -> (r: (
    SsoFlow,
    Action<P>,
))
    requires
        0 <= creds.expires_at,
    ensures
        r.0@.cache == cache@,
        r.0@.config == config@,
        (r.0@.stage, r.1@) == creds_obtained_spec::<P>(cache@, creds@),
        stage_wf(cache@, r.0@.stage),
{
    let path = cache.path_for("credentials");
    match path {
        Some(path) => {
            let content = creds.render();
            (
                SsoFlow { cache, config, stage: Stage::CredsWrite { creds } },
                Action::WriteCache { path, content },
            )
        },
        None => (SsoFlow { cache, config, stage: Stage::Done }, Action::Finish(Ok(creds))),
    }
}

fn client_read<P>(cache: Cache, config: SsoConfig, out: ReadOutcome, now: i64) -> (r: (
    SsoFlow,
    Action<P>,
))
    requires
        cache@.dir is Some,
    ensures
        r.0@.cache == cache@,
        r.0@.config == config@,
        (r.0@.stage, r.1@) == client_read_spec::<P>(cache@, config@, out@, now as int),
        stage_wf(cache@, r.0@.stage),
{
    let path = cache.path_for("client").unwrap();
    match out {
        ReadOutcome::Absent => (
            SsoFlow { cache, config, stage: Stage::ClientCall },
            Action::CallRegisterClient { client_name: client_name() },
        ),
        ReadOutcome::Unreadable(d) => {
            let msg = read_fail_message(path.as_str(), d.as_str());
            fail(cache, config, SsoFlowError::Cache(SsoCacheError { message: msg }))
        },
        ReadOutcome::Found(content) => {
            match ClientRegistration::parse(content.as_str()) {
                Some(a) => {
                    proof {
                        assert(a@.wf() && render_client(a@) == content@);
                        let v = choose|v: ClientRegistrationV|
                            v.wf() && render_client(v) == content@;
                        crate::oidc::lemma_render_client_injective(v, a@);
                    }
                    if is_fresh(a.secret_expires_at, now) {
                        enter_token(cache, config, a)
                    } else {
                        (
                            SsoFlow { cache, config, stage: Stage::ClientCall },
                            Action::CallRegisterClient { client_name: client_name() },
                        )
                    }
                },
                None => {
                    let msg = corrupt_message(path.as_str());
                    fail(cache, config, SsoFlowError::Cache(SsoCacheError { message: msg }))
                },
            }
        },
    }
}

fn token_read<P>(
    cache: Cache,
    config: SsoConfig,
    client: ClientRegistration,
    out: ReadOutcome,
    now: i64,
) -> (r: (SsoFlow, Action<P>))
    requires
        cache@.dir is Some,
    ensures
        r.0@.cache == cache@,
        r.0@.config == config@,
        (r.0@.stage, r.1@) == token_read_spec::<P>(cache@, config@, client@, out@, now as int),
        stage_wf(cache@, r.0@.stage),
{
    let path = cache.path_for("token").unwrap();
    match out {
        ReadOutcome::Absent => {
            let a = Action::CallStartDeviceAuthorization {
                client_id: client.client_id.clone(),
                client_secret: client.client_secret.clone(),
                start_url: config.start_url.clone(),
            };
            (SsoFlow { cache, config, stage: Stage::TokenAuthorize { client } }, a)
        },
        ReadOutcome::Unreadable(d) => {
            let msg = read_fail_message(path.as_str(), d.as_str());
            fail(cache, config, SsoFlowError::Cache(SsoCacheError { message: msg }))
        },
        ReadOutcome::Found(content) => {
            match BearerToken::parse(content.as_str()) {
                Some(a) => {
                    proof {
                        assert(a@.wf() && render_token(a@) == content@);
                        let v = choose|v: BearerTokenV| v.wf() && render_token(v) == content@;
                        crate::oidc::lemma_render_token_injective(v, a@);
                    }
                    if is_fresh(a.expires_at, now) {
                        enter_creds(cache, config, a)
                    } else {
                        let a2 = Action::CallStartDeviceAuthorization {
                            client_id: client.client_id.clone(),
                            client_secret: client.client_secret.clone(),
                            start_url: config.start_url.clone(),
                        };
                        (SsoFlow { cache, config, stage: Stage::TokenAuthorize { client } }, a2)
                    }
                },
                None => {
                    let msg = corrupt_message(path.as_str());
                    fail(cache, config, SsoFlowError::Cache(SsoCacheError { message: msg }))
                },
            }
        },
    }
}

fn creds_read<P>(
    cache: Cache,
    config: SsoConfig,
    token: BearerToken,
    out: ReadOutcome,
    now: i64,
) -> (r: (SsoFlow, Action<P>))
    requires
        cache@.dir is Some,
    ensures
        r.0@.cache == cache@,
        r.0@.config == config@,
        (r.0@.stage, r.1@) == creds_read_spec::<P>(cache@, config@, token@, out@, now as int),
        stage_wf(cache@, r.0@.stage),
{
    let path = cache.path_for("credentials").unwrap();
    match out {
        ReadOutcome::Absent => {
            let a = Action::CallGetRoleCredentials {
                access_token: token.access_token.clone(),
                account_id: config.account_id.clone(),
                role_name: config.role_name.clone(),
            };
            (SsoFlow { cache, config, stage: Stage::CredsCall { token } }, a)
        },
        ReadOutcome::Unreadable(d) => {
            let msg = read_fail_message(path.as_str(), d.as_str());
            fail(cache, config, SsoFlowError::Cache(SsoCacheError { message: msg }))
        },
        ReadOutcome::Found(content) => {
            match SessionCredentials::parse(content.as_str()) {
                Some(a) => {
                    proof {
                        assert(a@.wf() && render_credentials(a@) == content@);
                        let v = choose|v: SessionCredentialsV|
                            v.wf() && render_credentials(v) == content@;
                        crate::credentials::lemma_render_credentials_injective(v, a@);
                    }
                    if is_fresh(a.expires_at, now) {
                        (SsoFlow { cache, config, stage: Stage::Done }, Action::Finish(Ok(a)))
                    } else {
                        let a2 = Action::CallGetRoleCredentials {
                            access_token: token.access_token.clone(),
                            account_id: config.account_id.clone(),
                            role_name: config.role_name.clone(),
                        };
                        (SsoFlow { cache, config, stage: Stage::CredsCall { token } }, a2)
                    }
                },
                None => {
                    let msg = corrupt_message(path.as_str());
                    fail(cache, config, SsoFlowError::Cache(SsoCacheError { message: msg }))
                },
            }
        },
    }
}

impl SsoFlow {
    /// A flow over the given cache directory (`None` disables caching) and
    /// configuration, ready to start.
    pub fn build(cache_dir: Option<String>, config: SsoConfig) -> (r: SsoFlow)
        ensures
            r@.cache.suffix == crate::cache::fingerprint_spec(config@),
            r@.cache.dir == (match cache_dir {
                Some(d) => Some(d@),
                None => None::<Seq<char>>,
            }),
            r@.config == config@,
            r@.stage == StageV::Init,
            r.wf(),
    {
        let cache = Cache::new(cache_dir, &config);
        SsoFlow { cache, config, stage: Stage::Init }
    }

    /// Construct a builder for a flow.
    pub fn builder() -> (r: SsoFlowBuilder)
        ensures
            r@.cache_dir is None,
    {
        SsoFlowBuilder::new()
    }

    /// The machine's stages presuppose what they need of the cache.
    pub open spec fn wf(&self) -> bool {
        stage_wf(self@.cache, self@.stage)
    }

    /// Whether the machine awaits this event: the driver's protocol check.
    pub fn expects<P>(&self, event: &Event<P>) -> (r: bool)
        ensures
            r == expects_spec(self@.stage, event@),
    {
        match (&self.stage, event) {
            (Stage::ClientRead, Event::CacheRead(_)) => true,
            (Stage::ClientCall, Event::Registered(_)) => true,
            (Stage::ClientWrite { .. }, Event::CacheWritten(_)) => true,
            (Stage::TokenRead { .. }, Event::CacheRead(_)) => true,
            (Stage::TokenAuthorize { .. }, Event::AuthorizationStarted(_)) => true,
            (Stage::TokenPrompt { .. }, Event::Prompted(_)) => true,
            (Stage::TokenPoll { .. }, Event::Polled(_)) => true,
            (Stage::TokenSleep { .. }, Event::Slept) => true,
            (Stage::TokenWrite { .. }, Event::CacheWritten(_)) => true,
            (Stage::CredsRead { .. }, Event::CacheRead(_)) => true,
            (Stage::CredsCall { .. }, Event::CredentialsFetched(_)) => true,
            (Stage::CredsWrite { .. }, Event::CacheWritten(_)) => true,
            _ => false,
        }
    }

    /// Whether the flow has delivered its final action.
    pub fn is_finished(&self) -> (r: bool)
        ensures
            r == (self@.stage is Done || self@.stage is Failed),
    {
        match &self.stage {
            Stage::Done => true,
            Stage::Failed => true,
            _ => false,
        }
    }

    /// The flow's first action: read the client-registration cache if
    /// caching is enabled, else register at once.
    pub fn start<P>(self) -> (r: (SsoFlow, Action<P>))
        requires
            self@.stage == StageV::Init,
        ensures
            r.0@.cache == self@.cache,
            r.0@.config == self@.config,
            (r.0@.stage, r.1@) == start_spec::<P>(self@.cache),
            r.0.wf(),
    {
        let SsoFlow { cache, config, stage: _ } = self;
        let path = cache.path_for("client");
        match path {
            Some(path) => (
                SsoFlow { cache, config, stage: Stage::ClientRead },
                Action::ReadCache { path },
            ),
            None => (
                SsoFlow { cache, config, stage: Stage::ClientCall },
                Action::CallRegisterClient { client_name: client_name() },
            ),
        }
    }

    /// One transition: the outcome of the outstanding action goes in, the
    /// next action comes out. `now` is the current unix-seconds reading
    /// (see [`crate::cache::now_unix_seconds`]); only cache reads and the
    /// token exchange consult it.
    pub fn step<P>(self, event: Event<P>, now: i64) -> (r: (SsoFlow, Action<P>))
        requires
            self.wf(),
            expects_spec(self@.stage, event@),
        ensures
            r.0@.cache == self@.cache,
            r.0@.config == self@.config,
            (r.0@.stage, r.1@) == step_spec::<P>(
                self@.cache,
                self@.config,
                self@.stage,
                event@,
                now as int,
            ),
            r.0.wf(),
    {
        let SsoFlow { cache, config, stage } = self;
        match (stage, event) {
            (Stage::ClientRead, Event::CacheRead(out)) => client_read(cache, config, out, now),
            (Stage::ClientCall, Event::Registered(res)) => match res {
                Err(m) => fail(cache, config, SsoFlowError::Api(SsoApiError { message: m })),
                Ok(w) => match validate_register_client(w) {
                    Err(e) => fail(cache, config, SsoFlowError::Api(SsoApiError { message: e })),
                    Ok(client) => client_obtained(cache, config, client),
                },
            },
            (Stage::ClientWrite { client }, Event::CacheWritten(res)) => match res {
                Err(d) => {
                    let path = cache.path_for("client").unwrap();
                    let msg = write_fail_message(path.as_str(), d.as_str());
                    fail(cache, config, SsoFlowError::Cache(SsoCacheError { message: msg }))
                },
                Ok(_) => enter_token(cache, config, client),
            },
            (Stage::TokenRead { client }, Event::CacheRead(out)) => token_read(
                cache,
                config,
                client,
                out,
                now,
            ),
            (Stage::TokenAuthorize { client }, Event::AuthorizationStarted(res)) => match res {
                Err(m) => fail(cache, config, SsoFlowError::Api(SsoApiError { message: m })),
                Ok(w) => match validate_start_device_authorization(w) {
                    Err(e) => fail(cache, config, SsoFlowError::Api(SsoApiError { message: e })),
                    Ok(challenge) => {
                        let a = Action::Prompt {
                            verification_url: challenge.verification_url.clone(),
                        };
                        (
                            SsoFlow { cache, config, stage: Stage::TokenPrompt { client, challenge } },
                            a,
                        )
                    },
                },
            },
            (Stage::TokenPrompt { client, challenge }, Event::Prompted(res)) => match res {
                Err(p) => fail(cache, config, SsoFlowError::VerificationPrompt(p)),
                Ok(_) => {
                    let a = Action::CallCreateToken {
                        client_id: client.client_id.clone(),
                        client_secret: client.client_secret.clone(),
                        device_code: challenge.device_code.clone(),
                        user_code: challenge.user_code.clone(),
                    };
                    (SsoFlow { cache, config, stage: Stage::TokenPoll { client, challenge } }, a)
                },
            },
            (Stage::TokenPoll { client, challenge }, Event::Polled(out)) => match out {
                PollOutcome::AuthorizationPending => {
                    let seconds = challenge.poll_interval_seconds;
                    (
                        SsoFlow { cache, config, stage: Stage::TokenSleep { client, challenge } },
                        Action::Sleep { seconds },
                    )
                },
                PollOutcome::ExpiredChallenge => fail(
                    cache,
                    config,
                    SsoFlowError::VerificationPromptTimeout,
                ),
                PollOutcome::Failed(m) => fail(
                    cache,
                    config,
                    SsoFlowError::Api(SsoApiError { message: m }),
                ),
                PollOutcome::Token(w) => match validate_create_token(w, now) {
                    Err(e) => fail(cache, config, SsoFlowError::Api(SsoApiError { message: e })),
                    Ok(token) => token_obtained(cache, config, token),
                },
            },
            (Stage::TokenSleep { client, challenge }, Event::Slept) => {
                let a = Action::CallCreateToken {
                    client_id: client.client_id.clone(),
                    client_secret: client.client_secret.clone(),
                    device_code: challenge.device_code.clone(),
                    user_code: challenge.user_code.clone(),
                };
                (SsoFlow { cache, config, stage: Stage::TokenPoll { client, challenge } }, a)
            },
            (Stage::TokenWrite { token }, Event::CacheWritten(res)) => match res {
                Err(d) => {
                    let path = cache.path_for("token").unwrap();
                    let msg = write_fail_message(path.as_str(), d.as_str());
                    fail(cache, config, SsoFlowError::Cache(SsoCacheError { message: msg }))
                },
                Ok(_) => enter_creds(cache, config, token),
            },
            (Stage::CredsRead { token }, Event::CacheRead(out)) => creds_read(
                cache,
                config,
                token,
                out,
                now,
            ),
            (Stage::CredsCall { token: _ }, Event::CredentialsFetched(res)) => match res {
                Err(m) => fail(cache, config, SsoFlowError::Api(SsoApiError { message: m })),
                Ok(w) => match crate::credentials::validate_role_credentials(w) {
                    Err(e) => fail(cache, config, SsoFlowError::Api(SsoApiError { message: e })),
                    Ok(creds) => creds_obtained(cache, config, creds),
                },
            },
            (Stage::CredsWrite { creds }, Event::CacheWritten(res)) => match res {
                Err(d) => {
                    let path = cache.path_for("credentials").unwrap();
                    let msg = write_fail_message(path.as_str(), d.as_str());
                    fail(cache, config, SsoFlowError::Cache(SsoCacheError { message: msg }))
                },
                Ok(_) => (
                    SsoFlow { cache, config, stage: Stage::Done },
                    Action::Finish(Ok(creds)),
                ),
            },
            (st, _) => {
                proof {
                    assert(false);
                }
                (SsoFlow { cache, config, stage: st }, Action::Sleep { seconds: 0 })
            },
        }
    }

    /// One transition at the clock's current reading: like
    /// [`step`](SsoFlow::step), with `now` taken from
    /// [`crate::cache::now_unix_seconds`]. Whatever the clock reports, the
    /// transition is one of the machine's: some reading explains it.
    pub fn step_now<P>(self, event: Event<P>) -> (r: (SsoFlow, Action<P>))
        requires
            self.wf(),
            expects_spec(self@.stage, event@),
        ensures
            r.0@.cache == self@.cache,
            r.0@.config == self@.config,
            exists|now: int|
                (r.0@.stage, r.1@) == step_spec::<P>(
                    self@.cache,
                    self@.config,
                    self@.stage,
                    event@,
                    now,
                ),
            r.0.wf(),
    {
        let now = crate::cache::now_unix_seconds();
        let r = self.step(event, now);
        proof {
            assert((r.0@.stage, r.1@) == step_spec::<P>(
                self@.cache,
                self@.config,
                self@.stage,
                event@,
                now as int,
            ));
        }
        r
    }
}

/// Idempotent cache hit: when the credentials cache holds a record whose
/// expiry outlives the skew margin, the machine finishes with exactly that
/// record — the remote exchange that would compute it is never requested.
pub proof fn lemma_cache_hit_returns_cached<P>(
    c: CacheV,
    conf: SsoConfigV,
    token: BearerTokenV,
    v: SessionCredentialsV,
    now: int,
)
    requires
        v.wf(),
        fresh_at(v.expires_at, now),
    ensures
        step_spec::<P>(
            c,
            conf,
            StageV::CredsRead { token },
            EventV::CacheRead(ReadOutcomeV::Found(render_credentials(v))),
            now,
        ) == (StageV::Done, ActionV::<P>::Finish(Ok(v))),
{
    let content = render_credentials(v);
    let w = choose|w: SessionCredentialsV| w.wf() && render_credentials(w) == content;
    crate::credentials::lemma_render_credentials_injective(w, v);
}

/// A still-valid cached token skips the whole device-authorization
/// dialogue: the machine moves straight to the credentials stage and the
/// user is never prompted.
pub proof fn lemma_fresh_token_skips_dialogue<P>(
    c: CacheV,
    conf: SsoConfigV,
    client: ClientRegistrationV,
    v: BearerTokenV,
    now: int,
)
    requires
        v.wf(),
        fresh_at(v.expires_at, now),
    ensures
        step_spec::<P>(
            c,
            conf,
            StageV::TokenRead { client },
            EventV::CacheRead(ReadOutcomeV::Found(render_token(v))),
            now,
        ) == enter_creds_spec::<P>(c, conf, v),
        ({
            let a = step_spec::<P>(
                c,
                conf,
                StageV::TokenRead { client },
                EventV::CacheRead(ReadOutcomeV::Found(render_token(v))),
                now,
            ).1;
            a is ReadCache || a is CallGetRoleCredentials
        }),
{
    let content = render_token(v);
    let w = choose|w: BearerTokenV| w.wf() && render_token(w) == content;
    crate::oidc::lemma_render_token_injective(w, v);
}

/// Expiry-buffer boundary: a cached token is used exactly when its expiry
/// lies strictly more than the buffer beyond `now`; at or below the
/// boundary the machine recomputes — it starts the device dialogue.
pub proof fn lemma_expiry_boundary<P>(
    c: CacheV,
    conf: SsoConfigV,
    client: ClientRegistrationV,
    v: BearerTokenV,
    now: int,
)
    requires
        v.wf(),
    ensures
        ({
            let r = step_spec::<P>(
                c,
                conf,
                StageV::TokenRead { client },
                EventV::CacheRead(ReadOutcomeV::Found(render_token(v))),
                now,
            );
            if v.expires_at > now + crate::cache::CACHE_BUFFER_SECONDS {
                r == enter_creds_spec::<P>(c, conf, v)
            } else {
                r == (
                    StageV::TokenAuthorize { client },
                    ActionV::<P>::CallStartDeviceAuthorization {
                        client_id: client.client_id,
                        client_secret: client.client_secret,
                        start_url: conf.start_url,
                    },
                )
            }
        }),
{
    let content = render_token(v);
    let w = choose|w: BearerTokenV| w.wf() && render_token(w) == content;
    crate::oidc::lemma_render_token_injective(w, v);
}

/// Corrupt cache is fatal, not silently bypassed: content that is no
/// record's rendering stops the flow with a cache error naming the file,
/// and the compute path is never taken as a fallback.
pub proof fn lemma_corrupt_creds_cache_fatal<P>(
    c: CacheV,
    conf: SsoConfigV,
    token: BearerTokenV,
    content: Seq<char>,
    now: int,
)
    requires
        forall|v: SessionCredentialsV| v.wf() ==> #[trigger] render_credentials(v) != content,
    ensures
        step_spec::<P>(
            c,
            conf,
            StageV::CredsRead { token },
            EventV::CacheRead(ReadOutcomeV::Found(content)),
            now,
        ) == fail_with::<P>(
            FlowErrorV::Cache(corrupt_msg(cache_path_spec(c, "credentials"@)->Some_0)),
        ),
{
}

/// The same at the first cache: a corrupt client-registration file is a
/// hard cache error, never a silent re-registration.
pub proof fn lemma_corrupt_client_cache_fatal<P>(
    c: CacheV,
    conf: SsoConfigV,
    content: Seq<char>,
    now: int,
)
    requires
        forall|v: ClientRegistrationV| v.wf() ==> #[trigger] render_client(v) != content,
    ensures
        step_spec::<P>(
            c,
            conf,
            StageV::ClientRead,
            EventV::CacheRead(ReadOutcomeV::Found(content)),
            now,
        ) == fail_with::<P>(FlowErrorV::Cache(corrupt_msg(cache_path_spec(c, "client"@)->Some_0))),
{
}

/// The events of `n` "authorization pending" rounds: each round is the
/// pending answer, then the finished sleep.
pub open spec fn pending_rounds<P>(n: nat) -> Seq<EventV<P>>
    decreases n,
{
    if n == 0 {
        Seq::empty()
    } else {
        seq![
            EventV::<P>::Polled(PollOutcomeV::AuthorizationPending),
            EventV::<P>::Slept,
        ] + pending_rounds::<P>((n - 1) as nat)
    }
}

/// The machine driven over a sequence of events, collecting every action.
pub open spec fn run_spec<P>(
    c: CacheV,
    conf: SsoConfigV,
    st: StageV,
    evs: Seq<EventV<P>>,
    now: int,
) -> (StageV, Seq<ActionV<P>>)
    decreases evs.len(),
{
    if evs.len() == 0 {
        (st, Seq::empty())
    } else {
        let (st1, a) = step_spec(c, conf, st, evs[0], now);
        let (st2, rest) = run_spec(c, conf, st1, evs.drop_first(), now);
        (st2, seq![a] + rest)
    }
}

/// Polling backoff: however long the remote stays "authorization pending",
/// the machine sleeps for the challenge's interval between attempts and
/// polls again with the same challenge — `n` pending rounds produce
/// exactly `2n` actions (a sleep and a poll per round), no failure, no
/// re-prompt, and leave the machine polling still.
pub proof fn lemma_poll_pending_backoff<P>(
    c: CacheV,
    conf: SsoConfigV,
    client: ClientRegistrationV,
    challenge: VerificationChallengeV,
    n: nat,
    now: int,
)
    ensures
        ({
            let (st, acts) = run_spec::<P>(
                c,
                conf,
                StageV::TokenPoll { client, challenge },
                pending_rounds::<P>(n),
                now,
            );
            &&& st == StageV::TokenPoll { client, challenge }
            &&& acts.len() == 2 * n
            &&& forall|i: int|
                0 <= i < acts.len() ==> if i % 2 == 0 {
                    acts[i] == ActionV::<P>::Sleep { seconds: challenge.poll_interval_seconds }
                } else {
                    acts[i] == ActionV::<P>::CallCreateToken {
                        client_id: client.client_id,
                        client_secret: client.client_secret,
                        device_code: challenge.device_code,
                        user_code: challenge.user_code,
                    }
                }
        }),
    decreases n,
{
    let evs = pending_rounds::<P>(n);
    if n == 0 {
    } else {
        let st0 = StageV::TokenPoll { client, challenge };
        let (st1, a1) = step_spec::<P>(c, conf, st0, evs[0], now);
        assert(st1 == StageV::TokenSleep { client, challenge });
        let evs1 = evs.drop_first();
        let (st2, a2) = step_spec::<P>(c, conf, st1, evs1[0], now);
        assert(st2 == st0);
        lemma_poll_pending_backoff::<P>(c, conf, client, challenge, (n - 1) as nat, now);
        assert(evs1.drop_first() =~= pending_rounds::<P>((n - 1) as nat));
        let (stn, rest) = run_spec::<P>(c, conf, st0, pending_rounds::<P>((n - 1) as nat), now);
        let (_, acts1) = run_spec::<P>(c, conf, st1, evs1, now);
        let (_, acts) = run_spec::<P>(c, conf, st0, evs, now);
        assert(acts1 =~= seq![a2] + rest);
        assert(acts =~= seq![a1, a2] + rest);
        assert forall|i: int| 0 <= i < acts.len() implies if i % 2 == 0 {
            acts[i] == ActionV::<P>::Sleep { seconds: challenge.poll_interval_seconds }
        } else {
            acts[i] == ActionV::<P>::CallCreateToken {
                client_id: client.client_id,
                client_secret: client.client_secret,
                device_code: challenge.device_code,
                user_code: challenge.user_code,
            }
        } by {
            if i >= 2 {
                assert(acts[i] == rest[i - 2]);
                assert((i - 2) % 2 == i % 2);
            }
        }
    }
}

/// The remote's expiry signal ends polling at once as a
/// verification-prompt timeout — distinct from every other remote error —
/// and the machine retries nothing: a finished machine accepts no event.
pub proof fn lemma_poll_expired_times_out<P>(
    c: CacheV,
    conf: SsoConfigV,
    client: ClientRegistrationV,
    challenge: VerificationChallengeV,
    now: int,
)
    ensures
        step_spec::<P>(
            c,
            conf,
            StageV::TokenPoll { client, challenge },
            EventV::Polled(PollOutcomeV::ExpiredChallenge),
            now,
        ) == fail_with::<P>(FlowErrorV::VerificationPromptTimeout),
        forall|ev: EventV<P>| !expects_spec(StageV::Failed, ev),
{
}

/// Verification-prompt failure short-circuits polling: the prompt's own
/// error comes back as a prompt failure — never an API error — and the
/// machine is finished on the spot: no poll attempt is ever made, since a
/// finished machine accepts no further event.
pub proof fn lemma_prompt_failure_short_circuits<P>(
    c: CacheV,
    conf: SsoConfigV,
    client: ClientRegistrationV,
    challenge: VerificationChallengeV,
    p: P,
    now: int,
)
    ensures
        step_spec::<P>(
            c,
            conf,
            StageV::TokenPrompt { client, challenge },
            EventV::Prompted(Err(p)),
            now,
        ) == fail_with::<P>(FlowErrorV::VerificationPrompt(p)),
        forall|ev: EventV<P>| !expects_spec(StageV::Failed, ev),
{
}

} // verus!

