//! The configuration of the application: what is made of the raw values that
//! the operator supplies, which of them are refused, and what stands in for
//! those that may be left out.

use crate::event::text_of;
use crate::signature::{WebhookSecret, MAX_KEY_LEN};
use vstd::prelude::*;
use vstd::string::StringExecFns;
use vstd::utf8::encode_utf8;

verus! {

#[verifier::external_type_specification]
#[verifier::external_body]
pub struct ExEncodingKey(jsonwebtoken::EncodingKey);

#[verifier::external_type_specification]
#[verifier::external_body]
pub struct ExEncodingKeyError(jsonwebtoken::errors::Error);

#[verifier::external_type_specification]
#[verifier::external_body]
pub struct ExUri(hyper::Uri);

#[verifier::external_type_specification]
#[verifier::external_body]
pub struct ExInvalidUri(hyper::http::uri::InvalidUri);

#[verifier::external_type_specification]
#[verifier::external_body]
pub struct ExEnvDeserializationError(envious::EnvDeserializationError);

/// Whether `pem` is taken as an RSA key in PEM form. Only the form is looked
/// at: the label, and for a PKCS#8 document the algorithm it names.
pub uninterp spec fn rsa_pem_accepted(pem: Seq<u8>) -> bool;

/// Whether `text` is taken as a URI.
pub uninterp spec fn uri_accepted(text: Seq<char>) -> bool;

/// Reads an RSA key with jsonwebtoken's `EncodingKey::from_rsa_pem`. Whether
/// it is accepted depends on the bytes alone; nothing is said of the key that
/// comes out, nor of whether it can sign.
#[verifier::external_body]
fn rsa_key_from_pem(pem: &[u8]) -> (key: Result<
    jsonwebtoken::EncodingKey,
    jsonwebtoken::errors::Error,
>)
    ensures
        key is Ok <==> rsa_pem_accepted(pem@),
{
    jsonwebtoken::EncodingKey::from_rsa_pem(pem)
}

/// Reads a URI with `Uri::try_from`. Whether it is accepted depends on the
/// text alone; nothing is said of the URI that comes out.
#[verifier::external_body]
fn uri_from_string(text: String) -> (uri: Result<hyper::Uri, hyper::http::uri::InvalidUri>)
    ensures
        uri is Ok <==> uri_accepted(text@),
{
    hyper::Uri::try_from(text)
}

/// Identifies the application at the platform.
#[derive(Clone, Copy, Debug, PartialEq, Eq, Structural)]
pub struct AppId(pub u64);

/// An address to listen on: an IP address and a port.
#[derive(Clone, Copy, Debug, PartialEq, Eq)]
pub enum SocketAddr {
    V4 { octets: [u8; 4], port: u16 },
    V6 { segments: [u16; 8], port: u16, flowinfo: u32, scope_id: u32 },
}

/// Port of the webhook endpoint where none is configured.
pub const DEFAULT_WEBHOOK_PORT: u16 = 3000;

/// Port of the internal endpoint where none is configured.
pub const DEFAULT_INTERNAL_PORT: u16 = 3001;

/// Every IPv4 address of the machine, at `port`.
pub open spec fn unspecified(port: u16) -> SocketAddr {
    SocketAddr::V4 { octets: [0u8, 0u8, 0u8, 0u8], port }
}

/// The values as the operator supplies them, before any of them is checked.
#[derive(Clone, Debug, PartialEq, Eq)]
pub struct ApplicationRawConfig {
    pub github_private_key: String,
    pub github_webhook_secret: String,
    pub github_app_identifier: u64,
    pub github_uri: String,
    pub webhook_addr: Option<SocketAddr>,
    pub webhook_endpoint: Option<String>,
    pub internal_addr: Option<SocketAddr>,
}

/// What the application needs to act as itself towards the platform.
pub struct GitHubAppConfiguration {
    pub webhook_secret: WebhookSecret,
    pub app_identifier: AppId,
    pub app_key: jsonwebtoken::EncodingKey,
    pub uri: hyper::Uri,
}

/// Where webhook requests are taken.
#[derive(Clone, Debug, PartialEq, Eq)]
pub struct WebhookEndpointConfiguration {
    pub addr: SocketAddr,
    pub path: String,
}

/// Where the internal endpoint listens.
#[derive(Clone, Copy, Debug, PartialEq, Eq)]
pub struct InternalEndpointConfiguration {
    pub addr: SocketAddr,
}

/// Why no configuration came about.
#[derive(Debug)]
pub enum ConfigurationError {
    /// The raw values could not be read.
    EnvironmentConfigNotReadable(envious::EnvDeserializationError),
    /// The webhook secret is too long to sign with.
    UnsupportedCryptography,
    /// The private key is no RSA key in PEM form.
    InvalidRsaError(jsonwebtoken::errors::Error),
    /// The base URI is no URI.
    InvalidUri(hyper::http::uri::InvalidUri),
}

/// The address to listen on: the configured one, or every IPv4 address at
/// `port`.
pub open spec fn addr_or_default(configured: Option<SocketAddr>, port: u16) -> SocketAddr {
    match configured {
        Some(addr) => addr,
        None => unspecified(port),
    }
}

/// The path of the webhook endpoint: the configured one, or `/event_handler`.
pub open spec fn path_or_default(configured: Option<Seq<char>>) -> Seq<char> {
    match configured {
        Some(path) => path,
        None => "/event_handler"@,
    }
}

/// Which raw values are accepted: the secret is short enough to sign with,
/// the private key is an RSA key and the base URI is a URI.
pub open spec fn acceptable(raw: ApplicationRawConfig) -> bool {
    &&& encode_utf8(raw.github_webhook_secret@).len() <= MAX_KEY_LEN
    &&& rsa_pem_accepted(encode_utf8(raw.github_private_key@))
    &&& uri_accepted(raw.github_uri@)
}

fn addr_or(configured: Option<SocketAddr>, port: u16) -> (addr: SocketAddr)
    ensures
        addr == addr_or_default(configured, port),
{
    match configured {
        Some(addr) => addr,
        None => SocketAddr::V4 { octets: [0, 0, 0, 0], port },
    }
}

/// Makes the configuration of the raw values. The secret is checked first,
/// then the private key, then the base URI, and the first that is refused
/// decides the error. An address or a path that is left out gets its default.
pub fn load_github_app_config(raw: ApplicationRawConfig) -> (loaded: Result<
    (GitHubAppConfiguration, WebhookEndpointConfiguration, InternalEndpointConfiguration),
    ConfigurationError,
>)
    ensures
        match loaded {
            Ok((app, webhook, internal)) => {
                &&& acceptable(raw)
                &&& app.webhook_secret@ == encode_utf8(raw.github_webhook_secret@)
                &&& app.app_identifier == AppId(raw.github_app_identifier)
                &&& webhook.addr == addr_or_default(raw.webhook_addr, DEFAULT_WEBHOOK_PORT)
                &&& webhook.path@ == path_or_default(text_of(raw.webhook_endpoint))
                &&& internal.addr == addr_or_default(raw.internal_addr, DEFAULT_INTERNAL_PORT)
            },
            Err(ConfigurationError::UnsupportedCryptography) => encode_utf8(
                raw.github_webhook_secret@,
            ).len() > MAX_KEY_LEN,
            Err(ConfigurationError::InvalidRsaError(_)) => {
                &&& encode_utf8(raw.github_webhook_secret@).len() <= MAX_KEY_LEN
                &&& !rsa_pem_accepted(encode_utf8(raw.github_private_key@))
            },
            Err(ConfigurationError::InvalidUri(_)) => {
                &&& encode_utf8(raw.github_webhook_secret@).len() <= MAX_KEY_LEN
                &&& rsa_pem_accepted(encode_utf8(raw.github_private_key@))
                &&& !uri_accepted(raw.github_uri@)
            },
            Err(ConfigurationError::EnvironmentConfigNotReadable(_)) => false,
        },
{
    let ApplicationRawConfig {
        github_private_key,
        github_webhook_secret,
        github_app_identifier,
        github_uri,
        webhook_addr,
        webhook_endpoint,
        internal_addr,
    } = raw;
    let webhook_secret = match WebhookSecret::from_slice(github_webhook_secret.as_str().as_bytes()) {
        Some(secret) => secret,
        None => {
            return Err(ConfigurationError::UnsupportedCryptography);
        },
    };
    let app_key = match rsa_key_from_pem(github_private_key.as_str().as_bytes()) {
        Ok(key) => key,
        Err(error) => {
            return Err(ConfigurationError::InvalidRsaError(error));
        },
    };
    let uri = match uri_from_string(github_uri) {
        Ok(uri) => uri,
        Err(error) => {
            return Err(ConfigurationError::InvalidUri(error));
        },
    };
    let app = GitHubAppConfiguration {
        webhook_secret,
        app_identifier: AppId(github_app_identifier),
        app_key,
        uri,
    };
    let webhook = WebhookEndpointConfiguration {
        addr: addr_or(webhook_addr, DEFAULT_WEBHOOK_PORT),
        path: match webhook_endpoint {
            Some(path) => path,
            None => String::from_str("/event_handler"),
        },
    };
    let internal = InternalEndpointConfiguration {
        addr: addr_or(internal_addr, DEFAULT_INTERNAL_PORT),
    };
    Ok((app, webhook, internal))
}

} // verus!
