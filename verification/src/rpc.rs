//! Choosing the RPC endpoint of a command.
//!
//! A command names its endpoint by an address given with it, by an address in
//! the stored configuration, or by a predefined network, for which a free
//! public endpoint is picked. A network and a configured address exclude each
//! other; an address given with the command goes before a configured one.

use vstd::prelude::*;
use crate::network::{
    free_rpc_url,
    lemma_free_rpc_url_well_formed,
    provider_for_seed,
    FreeProvider,
    Network,
};
use crate::text::texts;

verus! {

/// The part of the stored configuration that endpoint resolution reads.
/// An empty `url` means that no address is configured.
#[derive(Clone, Debug, Default, PartialEq, Eq)]
pub struct CastConfig {
    pub url: String,
}

/// The endpoint arguments of a command.
#[derive(Clone, Debug, Default, PartialEq, Eq)]
pub struct RpcArgs {
    /// Address of the RPC provider; goes before the configured one.
    pub url: Option<String>,
    /// A predefined network, reached through a free public provider.
    pub network: Option<Network>,
}

/// Where the endpoint of a command comes from.
#[derive(Clone, Debug, PartialEq, Eq)]
pub enum EndpointSource {
    /// An address given with the command.
    ExplicitUrl(String),
    /// The address of the stored configuration.
    ConfiguredUrl(String),
    /// A predefined network.
    Network(Network),
}

/// Why no endpoint could be chosen.
#[derive(Clone, Copy, Debug, PartialEq, Eq, Structural)]
pub enum ResolveError {
    /// A network was asked for while the configuration holds an address.
    ConfigurationConflict,
    /// Neither an address nor a network was given, and none is configured.
    MissingEndpoint,
}

/// The endpoint that a command talks to: its address, which is never empty,
/// and the network it serves, where that is known.
#[derive(Debug, PartialEq, Eq)]
pub struct ResolvedEndpoint {
    url: String,
    network: Option<Network>,
}

/// Whether an endpoint speaks a protocol version that the client supports.
#[derive(Clone, Copy, Debug, PartialEq, Eq, Structural)]
pub enum VersionCheck {
    Supported,
    /// The endpoint reports another version. This is a warning to the user and
    /// no reason to give the endpoint up.
    Mismatch,
}

/// What a source holds, with addresses as sequences of characters.
pub ghost enum SourceView {
    ExplicitUrl(Seq<char>),
    ConfiguredUrl(Seq<char>),
    Network(Network),
}

impl View for EndpointSource {
    type V = SourceView;

    open spec fn view(&self) -> SourceView {
        match self {
            EndpointSource::ExplicitUrl(url) => SourceView::ExplicitUrl(url@),
            EndpointSource::ConfiguredUrl(url) => SourceView::ConfiguredUrl(url@),
            EndpointSource::Network(network) => SourceView::Network(*network),
        }
    }
}

/// The source of the endpoint, by the rules in their order: a network together
/// with a configured address is a conflict; a network goes first; then the
/// address given with the command; then the configured one.
pub open spec fn endpoint_source(
    url: Option<Seq<char>>,
    network: Option<Network>,
    configured: Seq<char>,
) -> Result<SourceView, ResolveError> {
    if network is Some && configured.len() > 0 {
        Err(ResolveError::ConfigurationConflict)
    } else if network is Some {
        Ok(SourceView::Network(network->0))
    } else if url is Some {
        Ok(SourceView::ExplicitUrl(url->0))
    } else if configured.len() > 0 {
        Ok(SourceView::ConfiguredUrl(configured))
    } else {
        Err(ResolveError::MissingEndpoint)
    }
}

/// The address that a source stands for. For a network it is the free endpoint
/// of the provider that the seed selects.
pub open spec fn source_url(source: SourceView, seed: Option<u64>) -> Seq<char> {
    match source {
        SourceView::ExplicitUrl(url) => url,
        SourceView::ConfiguredUrl(url) => url,
        SourceView::Network(network) => free_rpc_url(network, provider_for_seed(seed)),
    }
}

/// The network that a source is known to lead to.
pub open spec fn source_network(source: SourceView) -> Option<Network> {
    match source {
        SourceView::Network(network) => Some(network),
        _ => None,
    }
}

/// The address shown for the explicit and configured sources: the explicit one
/// where it is given, the configured one otherwise.
pub open spec fn shown_url(url: Option<Seq<char>>, configured: Seq<char>) -> Seq<char> {
    match url {
        Some(url) => url,
        None => configured,
    }
}

impl ResolveError {
    /// The message of the error.
    pub open spec fn message_text(&self) -> Seq<char> {
        match self {
            ResolveError::ConfigurationConflict => "The argument '--network' cannot be used when `url` is defined in `snfoundry.toml` for the active profile"@,
            ResolveError::MissingEndpoint => "Either `--network` or `--url` must be provided"@,
        }
    }

    /// The message of the error.
    pub fn message(&self) -> (message: &'static str)
        ensures
            message@ == self.message_text(),
    {
        match self {
            ResolveError::ConfigurationConflict => "The argument '--network' cannot be used when `url` is defined in `snfoundry.toml` for the active profile",
            ResolveError::MissingEndpoint => "Either `--network` or `--url` must be provided",
        }
    }
}

impl EndpointSource {
    /// Whether the source can be resolved: an address is not empty.
    pub open spec fn is_resolvable(&self) -> bool {
        match self {
            EndpointSource::ExplicitUrl(url) => url@.len() > 0,
            EndpointSource::ConfiguredUrl(url) => url@.len() > 0,
            EndpointSource::Network(_) => true,
        }
    }

    /// The endpoint of the source. For a network, `seed` selects the provider:
    /// see `FreeProvider::semi_random`.
    pub fn resolve(self, seed: Option<u64>) -> (endpoint: ResolvedEndpoint)
        requires
            self.is_resolvable(),
        ensures
            endpoint.spec_url() == source_url(self@, seed),
            endpoint.spec_network() == source_network(self@),
    {
        match self {
            EndpointSource::ExplicitUrl(url) => ResolvedEndpoint::new(url, None),
            EndpointSource::ConfiguredUrl(url) => ResolvedEndpoint::new(url, None),
            EndpointSource::Network(network) => {
                let free_provider = FreeProvider::semi_random(seed);
                proof {
                    lemma_free_rpc_url_well_formed(network, free_provider);
                }
                ResolvedEndpoint::new(network.url(&free_provider), Some(network))
            },
        }
    }
}

impl Clone for ResolvedEndpoint {
    fn clone(&self) -> (copy: Self)
        ensures
            copy == *self,
    {
        proof {
            use_type_invariant(self);
        }
        ResolvedEndpoint { url: self.url.clone(), network: self.network }
    }
}

impl ResolvedEndpoint {
    #[verifier::type_invariant]
    spec fn url_is_not_empty(&self) -> bool {
        self.url@.len() > 0
    }

    /// The address of the endpoint.
    pub closed spec fn spec_url(&self) -> Seq<char> {
        self.url@
    }

    /// The network that the endpoint serves, where that is known.
    pub closed spec fn spec_network(&self) -> Option<Network> {
        self.network
    }

    /// An endpoint at the given address.
    pub fn new(url: String, network: Option<Network>) -> (endpoint: ResolvedEndpoint)
        requires
            url@.len() > 0,
        ensures
            endpoint.spec_url() == url@,
            endpoint.spec_network() == network,
    {
        ResolvedEndpoint { url, network }
    }

    /// The address of the endpoint.
    pub fn url(&self) -> (url: &String)
        ensures
            url@ == self.spec_url(),
            url@.len() > 0,
    {
        proof {
            use_type_invariant(self);
        }
        &self.url
    }

    /// The network that the endpoint serves, where that is known.
    #[verifier::when_used_as_spec(spec_network)]
    pub fn network(&self) -> (network: Option<Network>)
        ensures
            network == self.spec_network(),
    {
        self.network
    }
}

impl RpcArgs {
    /// The explicit address as a sequence of characters, if there is one.
    pub open spec fn url_view(&self) -> Option<Seq<char>> {
        match self.url {
            Some(url) => Some(url@),
            None => None,
        }
    }

    /// Whether resolution is defined for these arguments: where they decide
    /// for the address given with the command, that address is not empty.
    pub open spec fn spec_is_resolvable(&self, config: &CastConfig) -> bool {
        endpoint_source(self.url_view(), self.network, config.url@) matches Ok(
            SourceView::ExplicitUrl(url),
        ) ==> url.len() > 0
    }

    /// Whether resolution is defined for these arguments: where they decide
    /// for the address given with the command, that address is not empty.
    #[verifier::when_used_as_spec(spec_is_resolvable)]
    pub fn is_resolvable(&self, config: &CastConfig) -> (resolvable: bool)
        ensures
            resolvable == self.spec_is_resolvable(config),
    {
        if self.network.is_some() {
            return true;
        }
        match &self.url {
            Some(url) => !url.as_str().is_empty(),
            None => true,
        }
    }

    /// Where the endpoint of the command comes from, or why none can be chosen.
    pub fn source(&self, config: &CastConfig) -> (source: Result<EndpointSource, ResolveError>)
        ensures
            match source {
                Ok(source) => endpoint_source(self.url_view(), self.network, config.url@) == Ok::<
                    SourceView,
                    ResolveError,
                >(source@),
                Err(error) => endpoint_source(self.url_view(), self.network, config.url@) == Err::<
                    SourceView,
                    ResolveError,
                >(error),
            },
    {
        if self.network.is_some() && !config.url.as_str().is_empty() {
            return Err(ResolveError::ConfigurationConflict);
        }
        if let Some(network) = self.network {
            return Ok(EndpointSource::Network(network));
        }
        match &self.url {
            Some(url) => Ok(EndpointSource::ExplicitUrl(url.clone())),
            None => {
                if config.url.as_str().is_empty() {
                    Err(ResolveError::MissingEndpoint)
                } else {
                    Ok(EndpointSource::ConfiguredUrl(config.url.clone()))
                }
            },
        }
    }

    /// The endpoint of the command, or why none can be chosen. `seed` is the
    /// installation's seed, which selects the free provider of a network: see
    /// `FreeProvider::semi_random`.
    pub fn resolve(&self, config: &CastConfig, seed: Option<u64>) -> (endpoint: Result<
        ResolvedEndpoint,
        ResolveError,
    >)
        requires
            self.is_resolvable(config),
        ensures
            match endpoint_source(self.url_view(), self.network, config.url@) {
                Ok(source) => endpoint is Ok && endpoint->Ok_0.spec_url() == source_url(
                    source,
                    seed,
                ) && endpoint->Ok_0.spec_network() == source_network(source),
                Err(error) => endpoint == Err::<ResolvedEndpoint, ResolveError>(error),
            },
    {
        match self.source(config) {
            Ok(source) => Ok(source.resolve(seed)),
            Err(error) => Err(error),
        }
    }

    /// The address to display for these arguments. The network is not looked
    /// at, and nothing is resolved or contacted.
    #[must_use]
    pub fn get_url(&self, config: &CastConfig) -> (url: String)
        ensures
            url@ == shown_url(self.url_view(), config.url@),
    {
        match &self.url {
            Some(url) => url.clone(),
            None => config.url.clone(),
        }
    }
}

/// Compares the protocol version that an endpoint reports with those that the
/// client supports: the version is supported where it is one of them.
pub fn check_version(reported: &str, supported: &Vec<String>) -> (check: VersionCheck)
    ensures
        check == if texts(supported@).contains(reported@) {
            VersionCheck::Supported
        } else {
            VersionCheck::Mismatch
        },
{
    let wanted = reported.to_owned();
    let mut i: usize = 0;
    while i < supported.len()
        invariant
            i <= supported@.len(),
            wanted@ == reported@,
            forall|j: int| 0 <= j < i ==> texts(supported@)[j] != reported@,
        decreases supported@.len() - i,
    {
        if supported[i] == wanted {
            assert(texts(supported@)[i as int] == reported@);
            return VersionCheck::Supported;
        }
        i += 1;
    }
    VersionCheck::Mismatch
}

/// A network and a configured address exclude each other: together they are a
/// conflict, whatever address is given with the command, and nothing else is.
pub proof fn lemma_conflict_iff_network_and_configured_url(
    url: Option<Seq<char>>,
    network: Option<Network>,
    configured: Seq<char>,
)
    ensures
        endpoint_source(url, network, configured) == Err::<SourceView, ResolveError>(
            ResolveError::ConfigurationConflict,
        ) <==> network is Some && configured.len() > 0,
{
}

/// An endpoint is missing exactly where no address is given with the command,
/// no network is asked for and no address is configured.
pub proof fn lemma_missing_iff_nothing_given(
    url: Option<Seq<char>>,
    network: Option<Network>,
    configured: Seq<char>,
)
    ensures
        endpoint_source(url, network, configured) == Err::<SourceView, ResolveError>(
            ResolveError::MissingEndpoint,
        ) <==> url is None && network is None && configured.len() == 0,
{
}

/// Without a network, the address given with the command goes before the
/// configured one, whatever that is.
pub proof fn lemma_explicit_url_goes_first(
    url: Seq<char>,
    configured: Seq<char>,
    seed: Option<u64>,
)
    ensures
        endpoint_source(Some(url), None, configured) == Ok::<SourceView, ResolveError>(
            SourceView::ExplicitUrl(url),
        ),
        source_url(SourceView::ExplicitUrl(url), seed) == url,
{
}

/// A network without a configured address resolves to an entry of the table of
/// free endpoints, whatever address is given with the command.
pub proof fn lemma_network_resolves_to_free_endpoint(
    url: Option<Seq<char>>,
    network: Network,
    seed: Option<u64>,
)
    ensures
        endpoint_source(url, Some(network), Seq::empty()) == Ok::<SourceView, ResolveError>(
            SourceView::Network(network),
        ),
        source_url(SourceView::Network(network), seed) == free_rpc_url(
            network,
            provider_for_seed(seed),
        ),
        source_network(SourceView::Network(network)) == Some(network),
{
}

/// The address of a resolved endpoint is never empty: an empty configured
/// address is no source, the free endpoints are not empty, and resolution is
/// not defined for an empty address given with the command.
pub proof fn lemma_resolved_url_is_not_empty(
    args: RpcArgs,
    config: CastConfig,
    seed: Option<u64>,
)
    requires
        args.is_resolvable(&config),
    ensures
        endpoint_source(args.url_view(), args.network, config.url@) matches Ok(source)
            ==> source_url(source, seed).len() > 0,
{
    if let Ok(SourceView::Network(network)) = endpoint_source(
        args.url_view(),
        args.network,
        config.url@,
    ) {
        lemma_free_rpc_url_well_formed(network, provider_for_seed(seed));
    }
}

/// The address to display does not depend on the network.
pub proof fn lemma_shown_url_ignores_network(first: RpcArgs, second: RpcArgs, config: CastConfig)
    requires
        first.url_view() == second.url_view(),
    ensures
        shown_url(first.url_view(), config.url@) == shown_url(second.url_view(), config.url@),
        first.url_view() is Some ==> shown_url(first.url_view(), config.url@)
            == first.url_view()->0,
        first.url_view() is None ==> shown_url(first.url_view(), config.url@) == config.url@,
{
}

} // verus!
