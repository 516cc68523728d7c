//! Building the store client: credential, request timeout, keep-alive while
//! idle, no version check against the server, and the compression that
//! `resolve_compression` picks.

use vstd::prelude::*;
use qdrant_client::config::QdrantConfig;
use qdrant_client::{Qdrant, QdrantError};
use crate::compression::{compression_plan, resolve_compression, CompressionMode};
use crate::errors::PipelineError;

verus! {

#[verifier::external_type_specification]
#[verifier::external_body]
pub struct ExQdrant(Qdrant);

#[verifier::external_type_specification]
#[verifier::external_body]
pub struct ExQdrantConfig(QdrantConfig);

#[verifier::external_type_specification]
#[verifier::external_body]
pub struct ExQdrantError(QdrantError);

/// Whether `QdrantConfig::build` accepts `s` as the endpoint URI (it parses
/// it as an `http::Uri`).
pub uninterp spec fn uri_accepted(s: Seq<char>) -> bool;

/// A client configuration together with what the library knows of it: the
/// endpoint, whether gzip is on, and whether `build` would check the server's
/// version.
pub struct ClientConfig {
    inner: QdrantConfig,
    uri: Ghost<Seq<char>>,
    gzip: Ghost<bool>,
    version_check: Ghost<bool>,
}

/// A built client and whether it compresses requests with gzip.
pub struct StoreClient {
    pub client: Qdrant,
    gzip: Ghost<bool>,
}

impl StoreClient {
    /// Whether the client sends its requests gzip-compressed.
    pub closed spec fn uses_gzip(&self) -> bool {
        self.gzip@
    }
}

/// Relies on `Qdrant::from_url`: a configuration for `url`, with no
/// compression and with the version check on.
#[verifier::external_body]
fn config_for(url: &str) -> (r: ClientConfig)
    ensures
        r.uri@ == url@,
        !r.gzip@,
        r.version_check@,
{
    ClientConfig { inner: Qdrant::from_url(url), uri: Ghost(url@), gzip: Ghost(false), version_check: Ghost(true) }
}

/// Relies on `QdrantConfig::api_key`: sets the credential, nothing else.
#[verifier::external_body]
fn with_api_key(config: ClientConfig, api_key: &str) -> (r: ClientConfig)
    ensures
        r.uri == config.uri && r.gzip == config.gzip && r.version_check == config.version_check,
{
    ClientConfig { inner: config.inner.api_key(api_key), ..config }
}

/// Relies on `QdrantConfig::timeout`: sets the request timeout, in seconds,
/// nothing else.
#[verifier::external_body]
fn with_timeout(config: ClientConfig, seconds: u64) -> (r: ClientConfig)
    ensures
        r.uri == config.uri && r.gzip == config.gzip && r.version_check == config.version_check,
{
    ClientConfig { inner: config.inner.timeout(std::time::Duration::from_secs(seconds)), ..config }
}

/// Relies on `QdrantConfig::keep_alive_while_idle`: sets that flag, nothing else.
#[verifier::external_body]
fn with_keep_alive(config: ClientConfig) -> (r: ClientConfig)
    ensures
        r.uri == config.uri && r.gzip == config.gzip && r.version_check == config.version_check,
{
    ClientConfig { inner: config.inner.keep_alive_while_idle(), ..config }
}

/// Relies on `QdrantConfig::skip_compatibility_check`: turns the version check off.
#[verifier::external_body]
fn without_version_check(config: ClientConfig) -> (r: ClientConfig)
    ensures
        r.uri == config.uri && r.gzip == config.gzip && !r.version_check@,
{
    ClientConfig { inner: config.inner.skip_compatibility_check(), version_check: Ghost(false), ..config }
}

/// Relies on `QdrantConfig::compression` with gzip, the one encoding it offers.
#[verifier::external_body]
fn with_gzip(config: ClientConfig) -> (r: ClientConfig)
    ensures
        r.uri == config.uri && r.gzip@ && r.version_check == config.version_check,
{
    let inner = config.inner.compression(Some(qdrant_client::config::CompressionEncoding::Gzip));
    ClientConfig { inner, gzip: Ghost(true), ..config }
}

/// Relies on `QdrantConfig::build`. With the version check and the connection
/// check off (the latter is off by default) it makes no request, and fails
/// only where the endpoint does not parse as a URI.
#[verifier::external_body]
fn build_client(config: ClientConfig) -> (r: Result<StoreClient, QdrantError>)
    requires
        !config.version_check@,
    ensures
        r is Ok <==> uri_accepted(config.uri@),
        r matches Ok(c) ==> c.gzip == config.gzip,
{
    let gzip = config.gzip;
    config.inner.build().map(|client| StoreClient { client, gzip })
}

/// Builds a client bound to `endpoint`. Whether it is built depends on the
/// endpoint alone, never on the compression mode: a mode that the transport
/// lacks is replaced by gzip (`compression_plan` says when). A client that
/// cannot be built is a `ConnectionError`.
pub fn connect(endpoint: &str, api_key: &str, timeout_secs: u64, mode: CompressionMode) -> (r: Result<
    StoreClient,
    PipelineError,
>)
    ensures
        r is Ok <==> uri_accepted(endpoint@),
        r matches Err(e) ==> e == PipelineError::ConnectionError,
        r matches Ok(c) ==> c.uses_gzip() == compression_plan(mode).gzip,
{
    let mut config = config_for(endpoint);
    config = with_api_key(config, api_key);
    config = with_timeout(config, timeout_secs);
    config = with_keep_alive(config);
    config = without_version_check(config);
    let plan = resolve_compression(mode);
    if plan.gzip {
        config = with_gzip(config);
    }
    match build_client(config) {
        Ok(client) => Ok(client),
        Err(_) => Err(PipelineError::ConnectionError),
    }
}

} // verus!
