//! A verified core for a device-code ("device authorization grant") credential
//! flow: an expiry-aware cache for the flow's intermediate artifacts, the
//! polling state machine that waits for an out-of-band user grant, and the
//! orchestration that chains client registration, token exchange and the final
//! credentials exchange, classifying every failure for provider-chaining
//! callers.
//!
//! The remote API calls, the file system, the clock and the user-facing
//! verification prompt are collaborators at the edge: the library decides,
//! a thin unverified driver performs.

pub mod builder;
pub mod cache;
pub mod credentials;
pub mod flow;
pub mod oidc;
pub mod profile;
pub mod region;
pub mod text;

pub use crate::builder::{SsoConfig, SsoConfigSource, SsoFlowBuilder};
pub use crate::credentials::SessionCredentials;
pub use crate::flow::{Action, Event, SsoApiError, SsoCacheError, SsoFlow, SsoFlowError};
pub use crate::profile::{ProfileSource, SsoProfileError};
pub use crate::region::Region;

use vstd::prelude::*;

use crate::flow::FlowErrorV;

verus! {

/// The view of [`SsoError`].
pub enum SsoErrorV<P> {
    Config(Seq<char>),
    Flow(FlowErrorV<P>),
}

/// An error indicating either misconfiguration or a failure during
/// authentication. Configuration trouble means "this flow is not usable as
/// configured", so a provider chain should fall through to its next source;
/// a flow failure is the authentication's own outcome, classified further
/// by [`SsoFlowError`].
pub enum SsoError<P> {
    /// SSO configuration was missing or invalid.
    Config(SsoProfileError),
    /// Failure during authentication.
    Flow(SsoFlowError<P>),
}

impl<P> View for SsoError<P> {
    type V = SsoErrorV<P>;

    open spec fn view(&self) -> SsoErrorV<P> {
        match self {
            SsoError::Config(e) => SsoErrorV::Config(e@),
            SsoError::Flow(e) => SsoErrorV::Flow(e@),
        }
    }
}

} // verus!
