//! The gRPC indexer handle: URI validation and endpoint construction.

use vstd::prelude::*;

use crate::error::GetClientError;

verus! {

/// A URI as `http` parses it.
#[verifier::external_type_specification]
#[verifier::external_body]
pub struct ExUri(http::Uri);

/// A pre-configured tonic channel endpoint.
#[verifier::external_type_specification]
#[verifier::external_body]
pub struct ExEndpoint(tonic::transport::Endpoint);

/// TLS settings for a tonic client endpoint.
#[verifier::external_type_specification]
#[verifier::external_body]
pub struct ExClientTlsConfig(tonic::transport::ClientTlsConfig);

/// `Clone` of `http::Uri`, which is derived: the copy is the same URI.
pub assume_specification[ <http::Uri as Clone>::clone ](uri: &http::Uri) -> (r: http::Uri)
    ensures
        r == *uri,
;

/// `Clone` of `tonic::transport::Endpoint`, which is derived: the copy is the same
/// endpoint.
pub assume_specification[ <tonic::transport::Endpoint as Clone>::clone ](
    endpoint: &tonic::transport::Endpoint,
) -> (r: tonic::transport::Endpoint)
    ensures
        r == *endpoint,
;

/// What `http`'s URI parser (`<http::Uri as FromStr>::from_str`) reports for a text:
/// `None` when the text is not a URI, otherwise the scheme (`Uri::scheme_str`),
/// the authority (`Uri::authority`, as text) and the URI written back out
/// (`Uri`'s `Display`).
pub uninterp spec fn http_uri_parts(text: Seq<char>) -> Option<(Option<Seq<char>>, Option<Seq<char>>, Seq<char>)>;

/// What `http` reports of a parsed URI: the scheme (`Uri::scheme_str`), the
/// authority (`Uri::authority`, as text) and the URI written out (`Uri`'s `Display`).
pub uninterp spec fn http_uri_view(uri: http::Uri) -> (Option<Seq<char>>, Option<Seq<char>>, Seq<char>);

/// The settings of a `tonic::transport::ClientTlsConfig`: whether the webpki (Mozilla)
/// root certificates are enabled, how many CA certificates were added
/// (`ca_certificate`), how many trust anchors were added (`trust_anchor`), whether a
/// domain name was set (`domain_name`), and whether a client identity was set
/// (`identity`). (The crate is built without tonic's `tls-native-roots` feature, so a
/// configuration cannot enable the system's roots.)
pub uninterp spec fn tls_config_settings(config: tonic::transport::ClientTlsConfig) -> (
    bool,
    nat,
    nat,
    bool,
    bool,
);

/// The settings of a `tonic::transport::Endpoint` that the indexer chooses: the text
/// the endpoint was built from (`from_shared`), the `TCP_NODELAY` flag, and the
/// settings (as `tls_config_settings` gives them) of the TLS configuration the
/// endpoint was given, if any.
pub uninterp spec fn endpoint_settings(endpoint: tonic::transport::Endpoint) -> (
    Seq<char>,
    bool,
    Option<(bool, nat, nat, bool, bool)>,
);

/// Whether rustls accepts, as the name of the server, the host that `http` finds in
/// the text (`Uri::host`, with the brackets of an IPv6 address removed, as
/// `tonic::transport::Endpoint::tls_config` takes it): the text parses as a URI, the
/// URI has a host, and `rustls::pki_types::ServerName::try_from` accepts it.
pub uninterp spec fn tls_accepts_host(text: Seq<char>) -> bool;

/// The prefix `unix:` of a Unix-domain-socket endpoint.
pub open spec fn unix_prefix() -> Seq<char> {
    seq!['u', 'n', 'i', 'x', ':']
}

/// Whether `tonic::transport::Endpoint::from_shared` accepts a text: a text that
/// starts with `unix:` names a Unix domain socket; any other text must parse as a URI
/// (`from_shared` uses `http`'s parser on the same text).
pub open spec fn endpoint_accepts_uri(text: Seq<char>) -> bool {
    unix_prefix().is_prefix_of(text) || http_uri_parts(text) is Some
}

/// Parses a text with `<http::Uri as FromStr>::from_str` and reads the parsed URI's
/// scheme, authority and written-out form. The contract claims that these parts are
/// the ones `http_uri_parts` names for the text and `http_uri_view` names for the
/// parsed URI, and that the parse fails exactly when `http_uri_parts` is `None`.
#[verifier::external_body]
fn parse_http_uri(text: &str) -> (r: Option<(http::Uri, Option<String>, Option<String>, String)>)
    ensures
        r is Some <==> http_uri_parts(text@) is Some,
        r matches Some(p) ==> http_uri_parts(text@) == Some(
            (p.1.deep_view(), p.2.deep_view(), p.3@),
        ),
        r matches Some(p) ==> http_uri_view(p.0) == (p.1.deep_view(), p.2.deep_view(), p.3@),
{
    match text.parse::<http::Uri>() {
        Ok(uri) => {
            let scheme = uri.scheme_str().map(|s| s.to_string());
            let authority = uri.authority().map(|a| a.as_str().to_string());
            let written = uri.to_string();
            Some((uri, scheme, authority, written))
        },
        Err(_) => None,
    }
}

/// Reads a parsed URI's scheme (`Uri::scheme_str`), authority (`Uri::authority`) and
/// written-out form (`Uri`'s `Display`). The contract claims that these are the parts
/// `http_uri_view` names, and that a URI with a scheme is written out starting with
/// the scheme and `://` (`Display` for `http::Uri` writes them first).
#[verifier::external_body]
fn read_http_uri(uri: &http::Uri) -> (r: (Option<String>, Option<String>, String))
    ensures
        (r.0.deep_view(), r.1.deep_view(), r.2@) == http_uri_view(*uri),
        r.0.deep_view() matches Some(scheme) ==> (scheme + "://"@).is_prefix_of(r.2@),
{
    let scheme = uri.scheme_str().map(|s| s.to_string());
    let authority = uri.authority().map(|a| a.as_str().to_string());
    (scheme, authority, uri.to_string())
}

/// Calls `tonic::transport::Endpoint::from_shared`. The contract claims that it
/// succeeds exactly when `endpoint_accepts_uri` holds of the text, and that the new
/// endpoint is built from the text, has `TCP_NODELAY` set and has no TLS
/// configuration.
#[verifier::external_body]
fn endpoint_from_shared(text: String) -> (r: Result<tonic::transport::Endpoint, tonic::transport::Error>)
    ensures
        r is Ok <==> endpoint_accepts_uri(text@),
        r matches Ok(e) ==> endpoint_settings(e) == (
            text@,
            true,
            None::<(bool, nat, nat, bool, bool)>,
        ),
{
    tonic::transport::Endpoint::from_shared(text)
}

/// Calls `tonic::transport::Endpoint::tcp_nodelay`, which sets the `TCP_NODELAY` flag
/// and keeps the target and the TLS configuration.
#[verifier::external_body]
fn endpoint_tcp_nodelay(endpoint: tonic::transport::Endpoint, enabled: bool) -> (r:
    tonic::transport::Endpoint)
    ensures
        endpoint_settings(r) == (endpoint_settings(endpoint).0, enabled, endpoint_settings(endpoint).2),
{
    endpoint.tcp_nodelay(enabled)
}

/// Calls `tonic::transport::Endpoint::tls_config`. On success the endpoint keeps its
/// target and `TCP_NODELAY` flag and takes the configuration. For a configuration with
/// no added CA certificate, no domain name and no client identity, the call succeeds
/// exactly when the endpoint is not a Unix domain socket and rustls accepts the host
/// of its URI (`tls_accepts_host`). The call assumes that no other code has installed
/// a process-wide rustls crypto provider without safe default protocol versions.
#[verifier::external_body]
fn endpoint_tls_config(
    endpoint: tonic::transport::Endpoint,
    config: tonic::transport::ClientTlsConfig,
) -> (r: Result<tonic::transport::Endpoint, tonic::transport::Error>)
    ensures
        r matches Ok(e) ==> endpoint_settings(e) == (
            endpoint_settings(endpoint).0,
            endpoint_settings(endpoint).1,
            Some(tls_config_settings(config)),
        ),
        tls_config_settings(config).1 == 0 && !tls_config_settings(config).3
            && !tls_config_settings(config).4 ==> (r is Ok <==> (!unix_prefix().is_prefix_of(
            endpoint_settings(endpoint).0,
        ) && tls_accepts_host(endpoint_settings(endpoint).0))),
{
    endpoint.tls_config(config)
}

/// Calls `tonic::transport::ClientTlsConfig::new`, the default configuration: no root
/// certificates of any kind, no domain name and no client identity.
#[verifier::external_body]
fn tls_config_new() -> (r: tonic::transport::ClientTlsConfig)
    ensures
        tls_config_settings(r) == (false, 0nat, 0nat, false, false),
{
    tonic::transport::ClientTlsConfig::new()
}

/// Calls `tonic::transport::ClientTlsConfig::with_webpki_roots`, which enables the
/// webpki roots and keeps every other setting.
#[verifier::external_body]
fn tls_config_with_webpki_roots(config: tonic::transport::ClientTlsConfig) -> (r:
    tonic::transport::ClientTlsConfig)
    ensures
        tls_config_settings(r) == (
            true,
            tls_config_settings(config).1,
            tls_config_settings(config).2,
            tls_config_settings(config).3,
            tls_config_settings(config).4,
        ),
{
    config.with_webpki_roots()
}

/// The settings of an `https` indexer's TLS configuration: the webpki roots and no
/// other trust anchor, no domain name and no client identity.
pub open spec fn webpki_roots_only() -> (bool, nat, nat, bool, bool) {
    (true, 0nat, 0nat, false, false)
}

/// The TLS configuration used for `https` indexers: it trusts exactly the webpki root
/// certificates.
fn client_tls_config() -> (r: tonic::transport::ClientTlsConfig)
    ensures
        tls_config_settings(r) == webpki_roots_only(),
        tls_config_settings(r) == (true, 0nat, 0nat, false, false),
{
    tls_config_with_webpki_roots(tls_config_new())
}

/// The scheme `http`.
pub open spec fn http_scheme() -> Seq<char> {
    seq!['h', 't', 't', 'p']
}

/// The scheme `https`.
pub open spec fn https_scheme() -> Seq<char> {
    seq!['h', 't', 't', 'p', 's']
}

/// The schemes an indexer may be reached by: `http` and `https`.
pub open spec fn is_indexer_scheme(scheme: Option<Seq<char>>) -> bool {
    scheme == Some(http_scheme()) || scheme == Some(https_scheme())
}

/// Why a URI cannot name an indexer.
#[derive(Clone, Copy, Debug, PartialEq, Eq, Structural)]
pub enum UriRejection {
    /// The scheme is missing, or is neither `http` nor `https`.
    InvalidScheme,
    /// The URI has no authority.
    InvalidAuthority,
}

/// The rejection of a URI with the given scheme and authority, if any: the scheme is
/// checked first, then the authority.
pub open spec fn uri_rejection(scheme: Option<Seq<char>>, authority: Option<Seq<char>>) -> Option<UriRejection> {
    if !is_indexer_scheme(scheme) {
        Some(UriRejection::InvalidScheme)
    } else if authority is None {
        Some(UriRejection::InvalidAuthority)
    } else {
        None
    }
}

/// A URI parsed by `http`, together with the parts of it that the indexer reads.
pub struct ServerUri {
    uri: http::Uri,
    scheme: Option<String>,
    authority: Option<String>,
    text: String,
}

impl View for ServerUri {
    /// The scheme, the authority and the written-out URI.
    type V = (Option<Seq<char>>, Option<Seq<char>>, Seq<char>);

    closed spec fn view(&self) -> Self::V {
        (self.scheme.deep_view(), self.authority.deep_view(), self.text@)
    }
}

impl ServerUri {
    /// The parts are those that `http` reports of the held URI.
    #[verifier::type_invariant]
    spec fn parts_of_uri(self) -> bool {
        self@ == http_uri_view(self.uri)
    }

    /// The parsed `http::Uri`.
    pub closed spec fn http_spec(&self) -> http::Uri {
        self.uri
    }

    /// Takes a parsed URI and reads its parts.
    pub fn from_http(uri: http::Uri) -> (r: ServerUri)
        ensures
            r@ == http_uri_view(uri),
            r.http_spec() == uri,
            r@.0 matches Some(scheme) ==> (scheme + "://"@).is_prefix_of(r@.2),
    {
        let (scheme, authority, text) = read_http_uri(&uri);
        ServerUri { uri, scheme, authority, text }
    }

    /// Parses a URI; `None` when `http` does not accept the text.
    pub fn parse(text: &str) -> (r: Option<ServerUri>)
        ensures
            r is Some <==> http_uri_parts(text@) is Some,
            r matches Some(u) ==> http_uri_parts(text@) == Some(u@),
            r matches Some(u) ==> http_uri_view(u.http_spec()) == u@,
    {
        match parse_http_uri(text) {
            Some((uri, scheme, authority, text)) => Some(ServerUri { uri, scheme, authority, text }),
            None => None,
        }
    }

    /// The parsed `http::Uri`, whose parts are this URI's parts.
    pub fn as_http(&self) -> (r: &http::Uri)
        ensures
            *r == self.http_spec(),
            http_uri_view(*r) == self@,
    {
        proof {
            use_type_invariant(self);
        }
        &self.uri
    }

    /// The scheme, if the URI has one.
    pub fn scheme(&self) -> (r: Option<&str>)
        ensures
            r.deep_view() == self@.0,
    {
        match &self.scheme {
            Some(s) => Some(s.as_str()),
            None => None,
        }
    }

    /// The authority (host and port), if the URI has one.
    pub fn authority(&self) -> (r: Option<&str>)
        ensures
            r.deep_view() == self@.1,
    {
        match &self.authority {
            Some(a) => Some(a.as_str()),
            None => None,
        }
    }

    /// The URI written out as text.
    pub fn as_str(&self) -> (r: &str)
        ensures
            r@ == self@.2,
    {
        self.text.as_str()
    }
}

/// Copies an optional text.
fn clone_optional_text(t: &Option<String>) -> (r: Option<String>)
    ensures
        r.deep_view() == t.deep_view(),
{
    match t {
        Some(s) => Some(s.clone()),
        None => None,
    }
}

impl Clone for ServerUri {
    /// Copies the URI; the copy is the same parsed URI, with the same scheme,
    /// authority and text.
    fn clone(&self) -> (r: Self)
        ensures
            r@ == self@,
            r.http_spec() == self.http_spec(),
    {
        proof {
            use_type_invariant(self);
        }
        ServerUri {
            uri: self.uri.clone(),
            scheme: clone_optional_text(&self.scheme),
            authority: clone_optional_text(&self.authority),
            text: self.text.clone(),
        }
    }
}

/// gRPC-backed indexer handle that connects to a lightwalletd server.
pub struct GrpcIndexer {
    uri: ServerUri,
    scheme: String,
    authority: String,
    endpoint: tonic::transport::Endpoint,
}

impl GrpcIndexer {
    /// Every indexer is reached by `http` or `https`, and its scheme and authority are
    /// those of its URI.
    #[verifier::type_invariant]
    spec fn well_formed(self) -> bool {
        &&& self.scheme@ == http_scheme() || self.scheme@ == https_scheme()
        &&& self.uri@.0 == Some(self.scheme@)
        &&& self.uri@.1 == Some(self.authority@)
    }

    /// The URI the indexer was built from.
    pub closed spec fn uri_spec(&self) -> ServerUri {
        self.uri
    }

    /// The endpoint the indexer connects through.
    pub closed spec fn endpoint_spec(&self) -> tonic::transport::Endpoint {
        self.endpoint
    }

    /// Validates the URI and pre-builds the endpoint.
    ///
    /// The scheme must be `http` or `https` and the authority must be present. The
    /// endpoint is built from the URI written out, with `TCP_NODELAY` set; an `https`
    /// endpoint is configured for TLS with the webpki roots and no other.
    pub fn new(uri: http::Uri) -> (r: Result<GrpcIndexer, GetClientError>)
        ensures
            r matches Err(GetClientError::InvalidScheme) <==> uri_rejection(
                http_uri_view(uri).0,
                http_uri_view(uri).1,
            ) == Some(UriRejection::InvalidScheme),
            r matches Err(GetClientError::InvalidAuthority) <==> uri_rejection(
                http_uri_view(uri).0,
                http_uri_view(uri).1,
            ) == Some(UriRejection::InvalidAuthority),
            r matches Err(GetClientError::Transport(_)) ==> uri_rejection(
                http_uri_view(uri).0,
                http_uri_view(uri).1,
            ) is None,
            uri_rejection(http_uri_view(uri).0, http_uri_view(uri).1) is None && !endpoint_accepts_uri(
                http_uri_view(uri).2,
            ) ==> r matches Err(GetClientError::Transport(_)),
            uri_rejection(http_uri_view(uri).0, http_uri_view(uri).1) is None && endpoint_accepts_uri(
                http_uri_view(uri).2,
            ) && http_uri_view(uri).0 == Some(http_scheme()) ==> r is Ok,
            uri_rejection(http_uri_view(uri).0, http_uri_view(uri).1) is None && endpoint_accepts_uri(
                http_uri_view(uri).2,
            ) && http_uri_view(uri).0 == Some(https_scheme()) && tls_accepts_host(
                http_uri_view(uri).2,
            ) ==> r is Ok,
            http_uri_view(uri).0 == Some(https_scheme()) && r is Ok ==> tls_accepts_host(
                http_uri_view(uri).2,
            ),
            is_indexer_scheme(http_uri_view(uri).0) ==> (r matches Err(GetClientError::InvalidAuthority)
                <==> http_uri_view(uri).1 is None),
            http_uri_view(uri).1 is Some ==> !(r matches Err(GetClientError::InvalidAuthority)),
            r is Ok ==> http_uri_view(uri).1 is Some,
            r matches Ok(g) ==> (http_uri_view(uri).0 == Some(https_scheme()) ==> endpoint_settings(
                g.endpoint_spec(),
            ).2 == Some((true, 0nat, 0nat, false, false))),
            r matches Ok(g) ==> (http_uri_view(uri).0 == Some(https_scheme()) ==> endpoint_settings(
                g.endpoint_spec(),
            ).2.unwrap().0),
            r matches Ok(g) ==> g.uri_spec().http_spec() == uri && g.uri_spec()@ == http_uri_view(
                uri,
            ),
            r matches Ok(g) ==> endpoint_settings(g.endpoint_spec()) == (
                http_uri_view(uri).2,
                true,
                if http_uri_view(uri).0 == Some(https_scheme()) {
                    Some(webpki_roots_only())
                } else {
                    None
                },
            ),
    {
        let uri = ServerUri::from_http(uri);
        let scheme = match uri.scheme() {
            Some(s) => s.to_owned(),
            None => return Err(GetClientError::InvalidScheme),
        };
        let is_http = scheme == "http".to_owned();
        let is_https = scheme == "https".to_owned();
        proof {
            reveal_strlit("http");
            reveal_strlit("https");
            reveal_strlit("://");
            assert("http"@ =~= http_scheme());
            assert("https"@ =~= https_scheme());
        }
        if !is_http && !is_https {
            return Err(GetClientError::InvalidScheme);
        }
        let authority = match uri.authority() {
            Some(a) => a.to_owned(),
            None => return Err(GetClientError::InvalidAuthority),
        };
        let endpoint = match endpoint_from_shared(uri.as_str().to_owned()) {
            Ok(e) => e,
            Err(e) => return Err(GetClientError::Transport(e)),
        };
        let endpoint = endpoint_tcp_nodelay(endpoint, true);
        let endpoint = if is_https {
            proof {
                // The written-out URI starts with `https://`, not with `unix:`.
                assert((https_scheme() + "://"@)[0] == 'h');
                assert(uri@.2[0] == 'h');
                assert(!unix_prefix().is_prefix_of(uri@.2));
            }
            match endpoint_tls_config(endpoint, client_tls_config()) {
                Ok(e) => e,
                Err(e) => return Err(GetClientError::Transport(e)),
            }
        } else {
            endpoint
        };
        Ok(GrpcIndexer { uri, scheme, authority, endpoint })
    }

    /// The URI the indexer was built from.
    pub fn uri(&self) -> (r: &http::Uri)
        ensures
            *r == self.uri_spec().http_spec(),
            is_indexer_scheme(http_uri_view(*r).0),
            http_uri_view(*r).1 is Some,
    {
        proof {
            use_type_invariant(self);
            use_type_invariant(&self.uri);
        }
        self.uri.as_http()
    }

    /// The indexer written out for debugging: its scheme (quoted) and authority;
    /// the URI and the endpoint are left out.
    pub fn debug_text(&self) -> (r: String)
        ensures
            r@ == "GrpcIndexer { scheme: \""@ + self.uri_spec()@.0.unwrap() + "\", authority: "@
                + self.uri_spec()@.1.unwrap() + ", .. }"@,
    {
        proof {
            use_type_invariant(self);
        }
        let mut r = "GrpcIndexer { scheme: \"".to_owned();
        r.append(self.scheme.as_str());
        r.append("\", authority: ");
        r.append(self.authority.as_str());
        r.append(", .. }");
        r
    }

    /// The endpoint the indexer connects through.
    pub fn endpoint(&self) -> (r: &tonic::transport::Endpoint)
        ensures
            *r == self.endpoint_spec(),
    {
        &self.endpoint
    }
}

impl Clone for GrpcIndexer {
    /// Copies the indexer handle; the copy has the same URI and the same endpoint.
    fn clone(&self) -> (r: Self)
        ensures
            r.uri_spec()@ == self.uri_spec()@,
            r.uri_spec().http_spec() == self.uri_spec().http_spec(),
            r.endpoint_spec() == self.endpoint_spec(),
    {
        proof {
            use_type_invariant(self);
        }
        GrpcIndexer {
            uri: self.uri.clone(),
            scheme: self.scheme.clone(),
            authority: self.authority.clone(),
            endpoint: self.endpoint.clone(),
        }
    }
}

/// An `https` indexer trusts the webpki roots, and only them: the webpki flag is on,
/// no CA certificate or trust anchor is added, and no domain name or client identity
/// is set.
pub proof fn lemma_https_trusts_webpki_roots()
    ensures
        webpki_roots_only() == (true, 0nat, 0nat, false, false),
        webpki_roots_only().0,
{
}

/// A URI with an `http` or `https` scheme is refused for its authority exactly when it
/// has none: any present authority, with or without a port, is accepted.
pub proof fn lemma_authority_rejected_only_when_missing(
    scheme: Option<Seq<char>>,
    authority: Option<Seq<char>>,
)
    ensures
        is_indexer_scheme(scheme) ==> (uri_rejection(scheme, authority) == Some(
            UriRejection::InvalidAuthority,
        ) <==> authority is None),
        authority is Some ==> uri_rejection(scheme, authority) != Some(
            UriRejection::InvalidAuthority,
        ),
        is_indexer_scheme(scheme) && authority is Some ==> uri_rejection(scheme, authority) is None,
{
}

} // verus!
