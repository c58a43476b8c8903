//! Flow configuration: the four logical parameters of a flow, and the
//! builder that assembles a flow from overridable pieces. The verification
//! prompt is a capability of the driver and never lives here.

use vstd::prelude::*;

use crate::profile::ProfileSource;
use crate::profile::ProfileSourceV;
use crate::region::Region;

verus! {

/// The name under which the flow registers itself with the identity
/// provider; also the last segment of the default cache directory.
pub open spec fn client_name_spec() -> Seq<char> {
    "aws-sso-flow@0.1"@
}

/// The client name as a string.
pub fn client_name() -> (r: String)
    ensures
        r@ == client_name_spec(),
{
    String::from_str("aws-sso-flow@0.1")
}

/// The mathematical view of [`SsoConfig`].
pub struct SsoConfigV {
    pub region: Seq<char>,
    pub start_url: Seq<char>,
    pub account_id: Seq<char>,
    pub role_name: Seq<char>,
}

impl SsoConfigV {
    /// Every field fits the cache fingerprint's framed encoding.
    pub open spec fn wf(self) -> bool {
        &&& self.region.len() <= u64::MAX
        &&& self.start_url.len() <= u64::MAX
        &&& self.account_id.len() <= u64::MAX
        &&& self.role_name.len() <= u64::MAX
    }
}

/// SSO configuration: the four logical parameters of one flow. Immutable
/// once built; also the material the cache fingerprint is derived from.
#[derive(Debug)]
pub struct SsoConfig {
    /// The region in which SSO was set up.
    pub region: Region,
    /// The URL for the SSO user portal.
    pub start_url: String,
    /// The account to sign in to.
    pub account_id: String,
    /// The name of the role to assume in the account.
    pub role_name: String,
}

impl View for SsoConfig {
    type V = SsoConfigV;

    open spec fn view(&self) -> SsoConfigV {
        SsoConfigV {
            region: self.region@,
            start_url: self.start_url@,
            account_id: self.account_id@,
            role_name: self.role_name@,
        }
    }
}

/// The view of [`SsoConfigSource`].
pub enum SsoConfigSourceV {
    Profile(ProfileSourceV),
    Fixed(SsoConfigV),
}

/// Where a flow's configuration comes from: a profile in shared
/// configuration (the driver reads the file and the environment), or a
/// fixed, fully supplied configuration.
pub enum SsoConfigSource {
    /// Load from a profile in shared configuration.
    Profile(ProfileSource),
    /// Use this configuration as given.
    Fixed(SsoConfig),
}

impl View for SsoConfigSource {
    type V = SsoConfigSourceV;

    open spec fn view(&self) -> SsoConfigSourceV {
        match self {
            SsoConfigSource::Profile(p) => SsoConfigSourceV::Profile(p@),
            SsoConfigSource::Fixed(c) => SsoConfigSourceV::Fixed(c@),
        }
    }
}

/// The view of [`SsoFlowBuilder`].
pub struct SsoFlowBuilderV {
    pub cache_dir: Option<Seq<char>>,
    pub config_source: SsoConfigSourceV,
}

/// Builder for a flow: the cache directory and the configuration source are
/// independently overridable.
pub struct SsoFlowBuilder {
    /// The cache directory override; `None` means the OS default location.
    pub cache_dir: Option<String>,
    /// The configuration source.
    pub config_source: SsoConfigSource,
}

impl View for SsoFlowBuilder {
    type V = SsoFlowBuilderV;

    open spec fn view(&self) -> SsoFlowBuilderV {
        SsoFlowBuilderV {
            cache_dir: match self.cache_dir {
                Some(ref p) => Some(p@),
                None => None,
            },
            config_source: self.config_source@,
        }
    }
}

impl Default for SsoFlowBuilder {
    /// The default builder: no cache-directory override, configuration
    /// from the default profile source.
    fn default() -> (r: SsoFlowBuilder)
        ensures
            r@.cache_dir is None,
            r@.config_source == SsoConfigSourceV::Profile(
                ProfileSourceV { config_file: None, profile: None },
            ),
    {
        SsoFlowBuilder::new()
    }
}

impl SsoFlowBuilder {
    /// A builder with default configuration: no cache-directory override,
    /// configuration from the default profile source.
    pub fn new() -> (r: SsoFlowBuilder)
        ensures
            r@.cache_dir is None,
            r@.config_source == SsoConfigSourceV::Profile(
                ProfileSourceV { config_file: None, profile: None },
            ),
    {
        SsoFlowBuilder {
            cache_dir: None,
            config_source: SsoConfigSource::Profile(
                ProfileSource { config_file: None, profile: None },
            ),
        }
    }

    /// Set the cache directory.
    ///
    /// Artifacts are cached as files in this directory; by default a
    /// directory named after the client under the OS cache location is used.
    pub fn cache_dir(self, path: String) -> (r: SsoFlowBuilder)
        ensures
            r@.cache_dir == Some(path@),
            r@.config_source == self@.config_source,
    {
        SsoFlowBuilder { cache_dir: Some(path), config_source: self.config_source }
    }

    /// Use the given configuration instead of loading a profile.
    pub fn config(self, config: SsoConfig) -> (r: SsoFlowBuilder)
        ensures
            r@.cache_dir == self@.cache_dir,
            r@.config_source == SsoConfigSourceV::Fixed(config@),
    {
        SsoFlowBuilder { cache_dir: self.cache_dir, config_source: SsoConfigSource::Fixed(config) }
    }

    /// Use the given profile source for configuration.
    pub fn profile_source(self, source: ProfileSource) -> (r: SsoFlowBuilder)
        ensures
            r@.cache_dir == self@.cache_dir,
            r@.config_source == SsoConfigSourceV::Profile(source@),
    {
        SsoFlowBuilder { cache_dir: self.cache_dir, config_source: SsoConfigSource::Profile(source) }
    }

    /// The cache directory the flow will use, given the OS cache location:
    /// the explicit override if one was set, else a directory named after
    /// the client under the OS location, else none (caching disabled).
    pub fn resolve_cache_dir(&self, os_cache_dir: Option<String>) -> (r: Option<String>)
        ensures
            match self@.cache_dir {
                Some(p) => r matches Some(q) && q@ == p,
                None => match os_cache_dir {
                    Some(base) => r matches Some(q) && q@ == base@ + "/"@ + client_name_spec(),
                    None => r is None,
                },
            },
    {
        match &self.cache_dir {
            Some(p) => Some(p.clone()),
            None => match os_cache_dir {
                Some(base) => {
                    let mut out = crate::text::to_char_vec(base.as_str());
                    crate::text::push_chars(&mut out, "/");
                    crate::text::push_chars(&mut out, client_name().as_str());
                    Some(crate::text::chars_to_string(&out))
                },
                None => None,
            },
        }
    }

    /// The default cache directory: a directory named after the client under
    /// the OS cache location, if the OS reports one.
    pub fn default_cache_dir() -> (r: Option<String>)
        ensures
            r matches Some(q) ==> exists|base: Seq<char>|
                q@ == base + "/"@ + client_name_spec(),
    {
        match os_cache_dir() {
            Some(base) => {
                let ghost b = base@;
                let mut out = crate::text::to_char_vec(base.as_str());
                crate::text::push_chars(&mut out, "/");
                crate::text::push_chars(&mut out, client_name().as_str());
                let q = crate::text::chars_to_string(&out);
                proof {
                    assert(q@ == b + "/"@ + client_name_spec());
                }
                Some(q)
            },
            None => None,
        }
    }
}

/// Relies on `dirs_next::cache_dir`: no promise is made of the OS cache
/// location, nor that there is one, nor that its path is valid text.
#[verifier::external_body]
fn os_cache_dir() -> (r: Option<String>)
{
    dirs_next::cache_dir().and_then(|p| p.to_str().map(|s| s.to_owned()))
}

} // verus!
