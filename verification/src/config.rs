//! Configuration of the application.

use vstd::prelude::*;
use crate::text::search::{starts_with, starts_with_chars};
use crate::text::{chars_of, concat2, concat3, copy_range, string_of};

verus! {

/// Secrets of the Discogs service.
#[derive(Debug, Clone)]
pub struct DiscogsSecrets {
    /// Consumer key.
    pub consumer_key: String,
    /// Consumer secret.
    pub consumer_secret: String,
}

/// Secrets of the application.
#[derive(Debug, Clone)]
pub struct AppSecrets {
    /// Secrets of the Discogs service.
    pub discogs: DiscogsSecrets,
}

/// How the application checks for updates.
#[derive(Debug, Clone)]
pub struct UpdateCheckConfig {
    /// Whether the check is made.
    pub enabled: bool,
    /// Address of the repository.
    pub repository_url: String,
}

/// Addresses of the Discogs service.
#[derive(Debug, Clone)]
pub struct DiscogsConfig {
    /// Address at which a request token is had.
    pub request_token_url: String,
    /// Address at which the user authorizes.
    pub authorize_url: String,
    /// Address at which an access token is had.
    pub access_token_url: String,
}

/// The configuration of the application.
#[derive(Debug, Clone)]
pub struct AppConfig {
    /// How the application checks for updates.
    pub update_check: UpdateCheckConfig,
    /// Addresses of the Discogs service.
    pub discogs: DiscogsConfig,
}

/// The prefix of the address of a repository at GitHub.
pub open spec fn github_prefix() -> Seq<char> {
    "https://github.com/"@
}

/// `s` without trailing slashes.
pub open spec fn without_trailing_slashes(s: Seq<char>) -> Seq<char>
    decreases s.len(),
{
    if s.len() > 0 && s.last() == '/' {
        without_trailing_slashes(s.drop_last())
    } else {
        s
    }
}

/// The address at which the latest release of a repository is asked for.
pub open spec fn api_url_of(repository_url: Seq<char>) -> Seq<char> {
    if starts_with(repository_url, github_prefix()) {
        "https://api.github.com/repos/"@ + without_trailing_slashes(
            repository_url.skip(github_prefix().len() as int),
        ) + "/releases/latest"@
    } else {
        repository_url
    }
}

/// Removes trailing slashes.
pub fn strip_trailing_slashes(chars: &[char]) -> (r: Vec<char>)
    ensures
        r@ == without_trailing_slashes(chars@),
{
    let mut n: usize = chars.len();
    proof {
        assert(chars@.take(n as int) =~= chars@);
    }
    while n > 0 && chars[n - 1] == '/'
        invariant
            n <= chars@.len(),
            without_trailing_slashes(chars@) == without_trailing_slashes(chars@.take(n as int)),
        decreases n,
    {
        proof {
            assert(chars@.take(n as int).drop_last() =~= chars@.take(n - 1));
        }
        n = n - 1;
    }
    proof {
        assert(chars@.take(n as int) =~= chars@.subrange(0, n as int));
    }
    copy_range(chars, 0, n)
}

impl DiscogsSecrets {
    /// Whether both the key and the secret are there.
    pub fn has_credentials(&self) -> (r: bool)
        ensures
            r == (self.consumer_key@.len() > 0 && self.consumer_secret@.len() > 0),
    {
        !self.consumer_key.as_str().is_empty() && !self.consumer_secret.as_str().is_empty()
    }
}

impl Default for DiscogsSecrets {
    /// No secrets.
    fn default() -> (r: Self)
        ensures
            r.consumer_key@.len() == 0,
            r.consumer_secret@.len() == 0,
    {
        DiscogsSecrets { consumer_key: String::new(), consumer_secret: String::new() }
    }
}

impl Default for AppSecrets {
    /// No secrets.
    fn default() -> (r: Self)
        ensures
            r.discogs.consumer_key@.len() == 0,
            r.discogs.consumer_secret@.len() == 0,
    {
        AppSecrets { discogs: DiscogsSecrets::default() }
    }
}

/// Whether updates are checked for where nothing is configured.
pub fn default_update_enabled() -> (r: bool)
    ensures
        r,
{
    true
}

/// The address of the repository where nothing is configured.
pub fn default_repository_url() -> (r: String)
    ensures
        r@ == "https://github.com/danifunker/ODE-artwork-downloader"@,
{
    "https://github.com/danifunker/ODE-artwork-downloader".to_owned()
}

impl Default for UpdateCheckConfig {
    /// Updates are checked for, at the repository of the application.
    fn default() -> (r: Self)
        ensures
            r.enabled,
            r.repository_url@ == "https://github.com/danifunker/ODE-artwork-downloader"@,
    {
        UpdateCheckConfig { enabled: default_update_enabled(), repository_url: default_repository_url() }
    }
}

impl UpdateCheckConfig {
    /// The address at which the latest release is asked for.
    pub fn api_url(&self) -> (r: String)
        ensures
            r@ == api_url_of(self.repository_url@),
    {
        let url = chars_of(self.repository_url.as_str());
        let prefix = chars_of("https://github.com/");
        if starts_with_chars(url.as_slice(), prefix.as_slice()) {
            let path = copy_range(url.as_slice(), prefix.len(), url.len());
            proof {
                assert(path@ =~= self.repository_url@.skip(github_prefix().len() as int));
            }
            let trimmed = strip_trailing_slashes(path.as_slice());
            let middle = string_of(trimmed.as_slice());
            concat3("https://api.github.com/repos/", middle.as_str(), "/releases/latest")
        } else {
            self.repository_url.clone()
        }
    }

    /// The address of the page of releases.
    pub fn releases_url(&self) -> (r: String)
        ensures
            r@ == without_trailing_slashes(self.repository_url@) + "/releases"@,
    {
        let url = chars_of(self.repository_url.as_str());
        let trimmed = strip_trailing_slashes(url.as_slice());
        let head = string_of(trimmed.as_slice());
        concat2(head.as_str(), "/releases")
    }
}

/// The address for request tokens where nothing is configured.
pub fn default_request_token_url() -> (r: String)
    ensures
        r@ == "https://api.discogs.com/oauth/request_token"@,
{
    "https://api.discogs.com/oauth/request_token".to_owned()
}

/// The address for authorization where nothing is configured.
pub fn default_authorize_url() -> (r: String)
    ensures
        r@ == "https://www.discogs.com/oauth/authorize"@,
{
    "https://www.discogs.com/oauth/authorize".to_owned()
}

/// The address for access tokens where nothing is configured.
pub fn default_access_token_url() -> (r: String)
    ensures
        r@ == "https://api.discogs.com/oauth/access_token"@,
{
    "https://api.discogs.com/oauth/access_token".to_owned()
}

impl Default for DiscogsConfig {
    /// Empty addresses.
    fn default() -> (r: Self)
        ensures
            r.request_token_url@.len() == 0,
            r.authorize_url@.len() == 0,
            r.access_token_url@.len() == 0,
    {
        DiscogsConfig {
            request_token_url: String::new(),
            authorize_url: String::new(),
            access_token_url: String::new(),
        }
    }
}

impl Default for AppConfig {
    /// The configuration that is used where none is given.
    fn default() -> (r: Self)
        ensures
            r.update_check.enabled,
            r.update_check.repository_url@
                == "https://github.com/danifunker/ODE-artwork-downloader"@,
            r.discogs.request_token_url@.len() == 0,
            r.discogs.authorize_url@.len() == 0,
            r.discogs.access_token_url@.len() == 0,
    {
        AppConfig { update_check: UpdateCheckConfig::default(), discogs: DiscogsConfig::default() }
    }
}

} // verus!
