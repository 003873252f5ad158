//! Tunneling through a Kubernetes target: finding the target, the
//! credentials headers for its API server, picking the pod behind a
//! Service, the port-forward URL, and the framing of the port-forward
//! WebSocket's data channel.
use vstd::prelude::*;
use vstd::string::StringSliceAdditionalSpecFns;

use crate::text::{chars_of, decimal, push_decimal, push_str, str_eq, string_from_chars};

verus! {

/// A configured target, as far as a Kubernetes tunnel looks at it.
#[derive(Clone, Debug, PartialEq, Eq)]
pub struct TunnelCandidate {
    pub id: u128,
    pub name: String,
    pub is_kubernetes: bool,
}

/// Why the Kubernetes target of a tunnel cannot be used.
#[derive(Clone, Debug, PartialEq, Eq)]
pub enum KubernetesTargetError {
    /// No target has this id.
    NotFound(u128),
    /// The target with this name and id is not a Kubernetes target.
    NotKubernetes { name: String, id: u128 },
}

/// `i` is the first candidate with id `id`.
pub open spec fn first_candidate(targets: Seq<TunnelCandidate>, id: u128, i: int) -> bool {
    &&& 0 <= i < targets.len()
    &&& targets[i].id == id
    &&& forall|j: int| 0 <= j < i ==> targets[j].id != id
}

/// Finds the Kubernetes target a tunnel goes through: the first target with
/// its id, which must be a Kubernetes target.
pub fn find_kubernetes_target(targets: &Vec<TunnelCandidate>, id: u128) -> (r: Result<
    usize,
    KubernetesTargetError,
>)
    ensures
        r matches Ok(i) ==> first_candidate(targets@, id, i as int) && targets@[i as int].is_kubernetes,
        r matches Err(KubernetesTargetError::NotFound(x)) ==> x == id && forall|i: int|
            0 <= i < targets@.len() ==> targets@[i].id != id,
        r matches Err(KubernetesTargetError::NotKubernetes { name, id: x }) ==> x == id && exists|
            i: int,
        | first_candidate(targets@, id, i) && !targets@[i].is_kubernetes && name@
            == targets@[i].name@,
        r is Ok <==> exists|i: int| first_candidate(targets@, id, i) && targets@[i].is_kubernetes,
{
    for i in 0..targets.len()
        invariant
            forall|j: int| 0 <= j < i ==> targets@[j].id != id,
    {
        if targets[i].id == id {
            if targets[i].is_kubernetes {
                assert(first_candidate(targets@, id, i as int));
                return Ok(i);
            }
            let name = targets[i].name.clone();
            assert(first_candidate(targets@, id, i as int));
            proof {
                assert forall|k: int| first_candidate(targets@, id, k) implies k == i by {
                    if k < i {
                        assert(targets@[k].id != id);
                    }
                }
            }
            return Err(KubernetesTargetError::NotKubernetes { name, id });
        }
    }
    Err(KubernetesTargetError::NotFound(id))
}

/// The byte may stand in an HTTP header value: visible ASCII, space and
/// tab, or any byte from 0x80 up (the `http` crate's `is_valid`).
pub open spec fn header_byte_ok(b: u8) -> bool {
    (b >= 32 && b != 127) || b == 9
}

/// Every byte of `text` may stand in an HTTP header value.
pub open spec fn valid_header_bytes(text: Seq<u8>) -> bool {
    forall|i: int| 0 <= i < text.len() ==> header_byte_ok(#[trigger] text[i])
}

/// The bytes of an HTTP header value made from `bytes`, as
/// `HeaderValue::from_bytes` makes it: `None` where a byte is not allowed
/// in a header value, else the bytes themselves.
pub fn header_value(bytes: &[u8]) -> (r: Option<Vec<u8>>)
    ensures
        r is Some <==> valid_header_bytes(bytes@),
        r matches Some(v) ==> v@ == bytes@,
{
    let mut v: Vec<u8> = Vec::new();
    for i in 0..bytes.len()
        invariant
            v@ == bytes@.take(i as int),
            valid_header_bytes(v@),
    {
        let b = bytes[i];
        if !((b >= 32 && b != 127) || b == 9) {
            assert(!header_byte_ok(bytes@[i as int]));
            return None;
        }
        v.push(b);
        assert(bytes@.take(i + 1) == bytes@.take(i as int).push(b));
    }
    assert(bytes@.take(bytes@.len() as int) == bytes@);
    Some(v)
}

/// Why the API-server headers for a Kubernetes target cannot be built.
#[derive(Clone, Copy, Debug, PartialEq, Eq, Structural)]
pub enum KubernetesHeaderError {
    /// The `Authorization` value holds bytes a header cannot carry.
    InvalidAuthorization,
    /// Impersonation is enabled but no Warpgate user is available.
    NoUserToImpersonate,
    /// The username holds bytes a header cannot carry.
    InvalidImpersonatedUser,
}

/// `Bearer <token>`.
pub open spec fn bearer_text(token: Seq<char>) -> Seq<char> {
    "Bearer "@ + token
}

/// The `Authorization` header value for a bearer token (a configured token
/// or an EKS token): the UTF-8 bytes of `Bearer <token>`.
pub fn bearer_authorization(token: &str) -> (r: Result<Vec<u8>, KubernetesHeaderError>)
    ensures
        r is Ok <==> valid_header_bytes(vstd::utf8::encode_utf8(bearer_text(token@))),
        r matches Ok(b) ==> b@ == vstd::utf8::encode_utf8(bearer_text(token@)),
        r matches Err(e) ==> e == KubernetesHeaderError::InvalidAuthorization,
{
    let mut text = String::from_str("Bearer ");
    push_str(&mut text, token);
    match header_value(text.as_str().as_bytes()) {
        Some(v) => Ok(v),
        None => Err(KubernetesHeaderError::InvalidAuthorization),
    }
}

/// The `Impersonate-User` header value for a target with
/// `impersonate_connecting_user` set: the UTF-8 bytes of the connecting
/// Warpgate user, who must be known. `None` where impersonation is off.
pub fn impersonation_header(impersonate: bool, auth_user: Option<&str>) -> (r: Result<
    Option<Vec<u8>>,
    KubernetesHeaderError,
>)
    ensures
        !impersonate ==> r matches Ok(None),
        impersonate && auth_user is None ==> r == Err::<Option<Vec<u8>>, KubernetesHeaderError>(
            KubernetesHeaderError::NoUserToImpersonate,
        ),
        impersonate ==> (auth_user matches Some(u) ==> if valid_header_bytes(u.spec_bytes()) {
            r matches Ok(Some(b)) && b@ == u.spec_bytes()
        } else {
            r == Err::<Option<Vec<u8>>, KubernetesHeaderError>(
                KubernetesHeaderError::InvalidImpersonatedUser,
            )
        }),
{
    if !impersonate {
        return Ok(None);
    }
    match auth_user {
        None => Err(KubernetesHeaderError::NoUserToImpersonate),
        Some(user) => match header_value(user.as_bytes()) {
            Some(v) => Ok(Some(v)),
            None => Err(KubernetesHeaderError::InvalidImpersonatedUser),
        },
    }
}

/// A default header of the API-server client.
#[derive(Clone, Copy, Debug, PartialEq, Eq, Structural)]
pub enum ApiHeader {
    /// `Authorization`.
    Authorization,
    /// `Impersonate-User`.
    ImpersonateUser,
}

/// How the API-server client is set up: whether it accepts certificates it
/// cannot verify, and the default headers it sends with every request.
#[derive(Clone, Debug)]
pub struct ApiClientSettings {
    pub accept_invalid_certs: bool,
    pub default_headers: Vec<(ApiHeader, Vec<u8>)>,
}

/// The default headers for an `Authorization` and an `Impersonate-User`
/// value, each where it is given; the two never displace each other.
pub open spec fn spec_default_headers(
    authorization: Option<Seq<u8>>,
    impersonate_user: Option<Seq<u8>>,
) -> Seq<(ApiHeader, Seq<u8>)> {
    let a = match authorization {
        Some(b) => seq![(ApiHeader::Authorization, b)],
        None => Seq::empty(),
    };
    let i = match impersonate_user {
        Some(b) => seq![(ApiHeader::ImpersonateUser, b)],
        None => Seq::empty(),
    };
    a + i
}

/// The bytes of an optional header value.
pub open spec fn value_view(v: Option<Vec<u8>>) -> Option<Seq<u8>> {
    match v {
        Some(b) => Some(b@),
        None => None,
    }
}

/// The default headers are exactly the values given: an `Authorization`
/// value is sent whenever one is given, with or without impersonation, an
/// `Impersonate-User` value whenever one is given, and nothing else; each
/// at most once.
pub proof fn law_default_headers_carry_every_value(
    authorization: Option<Seq<u8>>,
    impersonate_user: Option<Seq<u8>>,
    b: Seq<u8>,
)
    ensures
        spec_default_headers(authorization, impersonate_user).contains((ApiHeader::Authorization, b))
            <==> authorization == Some(b),
        spec_default_headers(authorization, impersonate_user).contains((ApiHeader::ImpersonateUser, b))
            <==> impersonate_user == Some(b),
        spec_default_headers(authorization, impersonate_user).len() == (if authorization is Some {
            1int
        } else {
            0int
        }) + (if impersonate_user is Some {
            1int
        } else {
            0int
        }),
{
    let h = spec_default_headers(authorization, impersonate_user);
    if authorization == Some(b) {
        assert(h[0] == (ApiHeader::Authorization, b));
    }
    if impersonate_user == Some(b) {
        assert(h[h.len() - 1] == (ApiHeader::ImpersonateUser, b));
    }
    if h.contains((ApiHeader::Authorization, b)) {
        let i = choose|i: int| 0 <= i < h.len() && h[i] == (ApiHeader::Authorization, b);
        if authorization is Some {
            assert(i == 0 || h[i].0 == ApiHeader::ImpersonateUser);
        }
    }
    if h.contains((ApiHeader::ImpersonateUser, b)) {
        let i = choose|i: int| 0 <= i < h.len() && h[i] == (ApiHeader::ImpersonateUser, b);
        assert(h[i].0 == ApiHeader::ImpersonateUser);
    }
}

/// The view of a header list: each header with its value's bytes.
pub open spec fn headers_view(h: Seq<(ApiHeader, Vec<u8>)>) -> Seq<(ApiHeader, Seq<u8>)> {
    h.map_values(|p: (ApiHeader, Vec<u8>)| (p.0, p.1@))
}

/// Sets up the API-server client: certificates go unchecked exactly where
/// TLS verification is off, and the credential's `Authorization` value and
/// the impersonation value are collected into one set of default headers
/// (applied only where there is at least one).
pub fn api_client_settings(
    tls_verify: bool,
    authorization: Option<Vec<u8>>,
    impersonate_user: Option<Vec<u8>>,
) -> (r: ApiClientSettings)
    ensures
        r.accept_invalid_certs == !tls_verify,
        headers_view(r.default_headers@) == spec_default_headers(
            value_view(authorization),
            value_view(impersonate_user),
        ),
{
    let mut headers: Vec<(ApiHeader, Vec<u8>)> = Vec::new();
    let ghost a = value_view(authorization);
    let ghost u = value_view(impersonate_user);
    match authorization {
        Some(b) => headers.push((ApiHeader::Authorization, b)),
        None => {},
    }
    assert(headers_view(headers@) == spec_default_headers(a, None));
    match impersonate_user {
        Some(b) => headers.push((ApiHeader::ImpersonateUser, b)),
        None => {},
    }
    assert(headers_view(headers@) == spec_default_headers(a, u));
    ApiClientSettings { accept_invalid_certs: !tls_verify, default_headers: headers }
}

/// `s` without its trailing newlines (`str::trim_end_matches('\n')`).
pub open spec fn trim_newlines_end(s: Seq<char>) -> Seq<char>
    decreases s.len(),
{
    if s.len() > 0 && s.last() == '\n' {
        trim_newlines_end(s.drop_last())
    } else {
        s
    }
}

/// The PEM bundle of a client certificate and its private key.
pub open spec fn pem_bundle_text(certificate: Seq<char>, private_key: Seq<char>) -> Seq<char> {
    trim_newlines_end(certificate) + seq!['\n'] + trim_newlines_end(private_key) + seq!['\n']
}

fn trim_newlines(s: &str) -> (t: String)
    ensures
        t@ == trim_newlines_end(s@),
{
    let v = chars_of(s);
    let mut n = v.len();
    assert(v@.subrange(0, n as int) == v@);
    while n > 0 && v[n - 1] == '\n'
        invariant
            n <= v@.len(),
            v@ == s@,
            trim_newlines_end(s@) == trim_newlines_end(v@.subrange(0, n as int)),
        decreases n,
    {
        assert(v@.subrange(0, n as int).drop_last() == v@.subrange(0, n - 1));
        n = n - 1;
    }
    string_from_chars(&v, 0, n)
}

/// Combines a PEM certificate and PEM private key into the single bundle a
/// client identity is made from, each ending in exactly one newline.
pub fn pem_bundle(certificate: &str, private_key: &str) -> (r: String)
    ensures
        r@ == pem_bundle_text(certificate@, private_key@),
{
    let mut r = trim_newlines(certificate);
    push_str(&mut r, "\n");
    let k = trim_newlines(private_key);
    push_str(&mut r, k.as_str());
    push_str(&mut r, "\n");
    proof {
        assert("\n"@ == seq!['\n']) by {
            reveal_strlit("\n");
        }
    }
    r
}

/// The object an Endpoints address points at.
#[derive(Clone, Debug, PartialEq, Eq)]
pub struct TargetRef {
    pub kind: Option<String>,
    pub name: String,
}

/// One address of an Endpoints subset.
#[derive(Clone, Debug, PartialEq, Eq)]
pub struct EndpointAddress {
    pub target_ref: Option<TargetRef>,
}

/// One subset of a Service's Endpoints: ready addresses and the port
/// numbers they serve.
#[derive(Clone, Debug, PartialEq, Eq)]
pub struct EndpointSubset {
    pub addresses: Vec<EndpointAddress>,
    pub ports: Vec<u16>,
}

/// A live backend for a Kubernetes Service, resolved from its Endpoints - the
/// same information `kubectl port-forward svc/x` uses client-side to pick a
/// pod to forward to, since the port-forward API itself only ever addresses
/// pods.
#[derive(Clone, Debug, PartialEq, Eq)]
pub struct ServiceBackend {
    pub pod_name: String,
    pub pod_port: u16,
}

/// The pod port a subset offers for `service_port`: its only port for a
/// single-port Service; for a multi-port one, the port that matches
/// exactly.
pub open spec fn subset_port(ports: Seq<u16>, service_port: u16) -> Option<u16> {
    if ports.len() == 1 {
        Some(ports[0])
    } else if ports.contains(service_port) {
        Some(service_port)
    } else {
        None
    }
}

/// The pod port picked for a Service port is either the subset's only port
/// (a single-port Service, whose pods may listen on another number) or the
/// requested port itself; a multi-port subset offering the requested port
/// always yields exactly that port, and one not offering it yields none.
pub proof fn law_subset_port_is_requested_port(ports: Seq<u16>, service_port: u16)
    ensures
        subset_port(ports, service_port) matches Some(p) ==> (ports.len() == 1 && p == ports[0]) || (
        p == service_port && ports.contains(service_port)),
        ports.len() != 1 && ports.contains(service_port) ==> subset_port(ports, service_port) == Some(
            service_port,
        ),
        ports.len() != 1 && !ports.contains(service_port) ==> subset_port(ports, service_port) is None,
        ports.len() == 1 ==> subset_port(ports, service_port) == Some(ports[0]),
{
}

/// The address points at a pod (a target reference whose kind is `Pod` or
/// left out).
pub open spec fn is_pod_address(a: EndpointAddress) -> bool {
    a.target_ref matches Some(r) && (r.kind is None || r.kind.unwrap()@ == "Pod"@)
}

/// Only pods back a Service: an address with no target reference, or one
/// referring to an object of another kind, is never picked; a reference to
/// a `Pod`, or one that leaves the kind out, is.
pub proof fn law_only_pod_addresses_count(name: String, kind: String)
    ensures
        !is_pod_address(EndpointAddress { target_ref: None }),
        kind@ != "Pod"@ ==> !is_pod_address(
            EndpointAddress { target_ref: Some(TargetRef { kind: Some(kind), name }) },
        ),
        kind@ == "Pod"@ ==> is_pod_address(
            EndpointAddress { target_ref: Some(TargetRef { kind: Some(kind), name }) },
        ),
        is_pod_address(EndpointAddress { target_ref: Some(TargetRef { kind: None, name }) }),
{
}

/// `j` is the first pod address of `addrs`.
pub open spec fn first_pod(addrs: Seq<EndpointAddress>, j: int) -> bool {
    &&& 0 <= j < addrs.len()
    &&& is_pod_address(addrs[j])
    &&& forall|k: int| 0 <= k < j ==> !is_pod_address(addrs[k])
}

/// The subset can back the Service's port: it offers a pod port for it and
/// has a pod address.
pub open spec fn subset_serves(sub: EndpointSubset, service_port: u16) -> bool {
    &&& subset_port(sub.ports@, service_port) is Some
    &&& exists|j: int| first_pod(sub.addresses@, j)
}

/// `i` is the first subset that can back the Service's port.
pub open spec fn first_serving(subsets: Seq<EndpointSubset>, service_port: u16, i: int) -> bool {
    &&& 0 <= i < subsets.len()
    &&& subset_serves(subsets[i], service_port)
    &&& forall|k: int| 0 <= k < i ==> !subset_serves(#[trigger] subsets[k], service_port)
}

/// The backing subset is the earliest one that can serve the port: there
/// is at most one such earliest subset, a first subset that can serve is
/// always it, and no subset before it can serve.
pub proof fn law_earliest_serving_subset_wins(subsets: Seq<EndpointSubset>, service_port: u16, i: int, j: int)
    ensures
        first_serving(subsets, service_port, i) && first_serving(subsets, service_port, j) ==> i == j,
        subsets.len() > 0 && subset_serves(subsets[0], service_port) ==> first_serving(subsets, service_port, 0),
        first_serving(subsets, service_port, i) && 0 <= j < i ==> !subset_serves(subsets[j], service_port),
{
    if first_serving(subsets, service_port, i) && first_serving(subsets, service_port, j) {
        if i < j {
            assert(!subset_serves(subsets[i], service_port));
        } else if j < i {
            assert(!subset_serves(subsets[j], service_port));
        }
    }
}

fn pod_kind(kind: &Option<String>) -> (r: bool)
    ensures
        r == (kind is None || kind.unwrap()@ == "Pod"@),
{
    match kind {
        None => true,
        Some(k) => str_eq(k.as_str(), "Pod"),
    }
}

fn first_pod_address(addrs: &Vec<EndpointAddress>) -> (r: Option<usize>)
    ensures
        match r {
            Some(j) => first_pod(addrs@, j as int),
            None => forall|k: int| 0 <= k < addrs@.len() ==> !is_pod_address(addrs@[k]),
        },
{
    for j in 0..addrs.len()
        invariant
            forall|k: int| 0 <= k < j ==> !is_pod_address(addrs@[k]),
    {
        match &addrs[j].target_ref {
            Some(r) => {
                if pod_kind(&r.kind) {
                    return Some(j);
                }
            },
            None => {},
        }
    }
    None
}

fn pick_port(ports: &Vec<u16>, service_port: u16) -> (r: Option<u16>)
    ensures
        r == subset_port(ports@, service_port),
{
    if ports.len() == 1 {
        return Some(ports[0]);
    }
    for k in 0..ports.len()
        invariant
            forall|m: int| 0 <= m < k ==> ports@[m] != service_port,
    {
        if ports[k] == service_port {
            assert(ports@[k as int] == service_port);
            return Some(ports[k]);
        }
    }
    None
}

/// Picks `service`'s live backend from its Endpoints subsets:
/// `service_port` is the port number as declared on the Service; when the
/// Service exposes more than one port, it must match one of them exactly.
/// The first subset (in order) that offers the port and has a pod address
/// wins, with its first pod address. `None`: no ready pod backs the port.
pub fn select_service_backend(subsets: &Vec<EndpointSubset>, service_port: u16) -> (r: Option<
    ServiceBackend,
>)
    ensures
        r is Some <==> exists|i: int| first_serving(subsets@, service_port, i),
        r matches Some(b) ==> exists|i: int, j: int|
            first_serving(subsets@, service_port, i) && first_pod(subsets@[i].addresses@, j)
                && b.pod_name@ == subsets@[i].addresses@[j].target_ref.unwrap().name@ && Some(
                b.pod_port,
            ) == subset_port(subsets@[i].ports@, service_port),
{
    for i in 0..subsets.len()
        invariant
            forall|k: int| 0 <= k < i ==> !subset_serves(#[trigger] subsets@[k], service_port),
    {
        let subset = &subsets[i];
        match pick_port(&subset.ports, service_port) {
            None => {},
            Some(pod_port) => {
                match first_pod_address(&subset.addresses) {
                    None => {},
                    Some(j) => {
                        let name = match &subset.addresses[j].target_ref {
                            Some(r) => r.name.clone(),
                            None => String::new(),
                        };
                        assert(first_serving(subsets@, service_port, i as int));
                        proof {
                            assert forall|m: int| first_serving(subsets@, service_port, m) implies m
                                == i by {
                                if m < i {
                                    assert(!subset_serves(subsets@[m], service_port));
                                }
                            }
                        }
                        return Some(ServiceBackend { pod_name: name, pod_port });
                    },
                }
            },
        }
    }
    None
}

/// The URL of a Service's Endpoints object.
pub open spec fn endpoints_url_text(cluster_url: Seq<char>, namespace: Seq<char>, service: Seq<char>) -> Seq<char> {
    cluster_url + "/api/v1/namespaces/"@ + namespace + "/endpoints/"@ + service
}

/// Builds the URL of `namespace/service`'s Endpoints object.
pub fn endpoints_url(cluster_url: &str, namespace: &str, service: &str) -> (r: String)
    ensures
        r@ == endpoints_url_text(cluster_url@, namespace@, service@),
{
    let mut r = String::from_str(cluster_url);
    push_str(&mut r, "/api/v1/namespaces/");
    push_str(&mut r, namespace);
    push_str(&mut r, "/endpoints/");
    push_str(&mut r, service);
    r
}

/// The path of the port-forward API for `pod:port` in `namespace`.
pub open spec fn portforward_url_text(
    cluster_url: Seq<char>,
    namespace: Seq<char>,
    pod: Seq<char>,
    port: u16,
) -> Seq<char> {
    cluster_url + "/api/v1/namespaces/"@ + namespace + "/pods/"@ + pod + "/portforward?ports="@
        + decimal(port as nat)
}

/// Builds the port-forward URL text for `pod:port` in `namespace`.
pub fn portforward_url_string(cluster_url: &str, namespace: &str, pod: &str, port: u16) -> (r: String)
    ensures
        r@ == portforward_url_text(cluster_url@, namespace@, pod@, port),
{
    let mut r = String::from_str(cluster_url);
    push_str(&mut r, "/api/v1/namespaces/");
    push_str(&mut r, namespace);
    push_str(&mut r, "/pods/");
    push_str(&mut r, pod);
    push_str(&mut r, "/portforward?ports=");
    push_decimal(&mut r, port as u64);
    r
}

/// The WebSocket scheme for an API server's scheme: `wss` for `https`,
/// `ws` otherwise.
pub fn websocket_scheme(scheme: &str) -> (r: String)
    ensures
        r@ == spec_websocket_scheme(scheme@),
{
    if str_eq(scheme, "https") {
        String::from_str("wss")
    } else {
        String::from_str("ws")
    }
}

#[verifier::external_type_specification]
#[verifier::external_body]
pub struct ExUrl(url::Url);

/// What `url::Url::parse` makes of `text`: the scheme of the URL it parses
/// to, or `None` where it reports an error.
pub uninterp spec fn url_parsed_scheme(text: Seq<char>) -> Option<Seq<char>>;

/// Whether `text` parses as a URL (`url::Url::parse`) that then accepts
/// `scheme` as its new scheme (`Url::set_scheme`).
pub uninterp spec fn url_accepts_scheme(text: Seq<char>, scheme: Seq<char>) -> bool;

/// `url::Url::parse(text)`, with the parsed URL's scheme. Trusted: it
/// succeeds, and reads that scheme, as the named parse of `text` does; the
/// rest of the URL is not modelled.
#[verifier::external_body]
fn parse_url(text: &str) -> (r: Option<(url::Url, String)>)
    ensures
        match r {
            Some((_, scheme)) => url_parsed_scheme(text@) == Some(scheme@),
            None => url_parsed_scheme(text@) is None,
        },
{
    url::Url::parse(text).ok().map(|u| {
        let scheme = u.scheme().to_string();
        (u, scheme)
    })
}

/// `url::Url::parse(text)` followed by `set_scheme(scheme)` on the parsed
/// URL, with the scheme the URL then has. Trusted: it succeeds exactly as
/// the named pair of calls does, which needs the parse to succeed; from an
/// `http` or `https` URL to `ws` or `wss` it always succeeds (`set_scheme`
/// refuses only a change between special and non-special schemes, a
/// remainder after the scheme, a `file` change, or a special scheme on a URL
/// without host, and a parsed `http(s)` URL always has a host); and the
/// scheme read back is `ws` or `wss` as set, lower case already. The rest
/// of the URL is not modelled.
#[verifier::external_body]
fn url_with_scheme(text: &str, scheme: &str) -> (r: Option<(url::Url, String)>)
    ensures
        r is Some <==> url_accepts_scheme(text@, scheme@),
        r is Some ==> url_parsed_scheme(text@) is Some,
        (url_parsed_scheme(text@) == Some("http"@) || url_parsed_scheme(text@) == Some("https"@))
            && (scheme@ == "ws"@ || scheme@ == "wss"@) ==> r is Some,
        scheme@ == "ws"@ || scheme@ == "wss"@ ==> (r matches Some((_, s)) ==> s@ == scheme@),
{
    let mut u = url::Url::parse(text).ok()?;
    u.set_scheme(scheme).ok()?;
    let s = u.scheme().to_string();
    Some((u, s))
}

/// Why a port-forward URL could not be built.
#[derive(Clone, Copy, Debug, PartialEq, Eq, Structural)]
pub enum PortForwardUrlError {
    /// The URL text does not parse.
    Construct,
    /// The URL refused the WebSocket scheme.
    SetScheme,
}

/// The WebSocket scheme for an API server's scheme: `wss` for `https`,
/// `ws` otherwise.
pub open spec fn spec_websocket_scheme(scheme: Seq<char>) -> Seq<char> {
    if scheme == "https"@ {
        "wss"@
    } else {
        "ws"@
    }
}

/// A port-forward URL and the WebSocket scheme it carries.
#[derive(Debug)]
pub struct PortForwardUrl {
    pub url: url::Url,
    pub scheme: String,
}

/// The WebSocket URL of the port-forward API for `pod:port` in
/// `namespace` on the cluster at `cluster_url`: the text of
/// `portforward_url_text`, parsed, with `https` turned into `wss` and any
/// other scheme into `ws`.
pub fn portforward_url(cluster_url: &str, namespace: &str, pod: &str, port: u16) -> (r: Result<
    PortForwardUrl,
    PortForwardUrlError,
>)
    ensures
        (r matches Err(PortForwardUrlError::Construct)) <==> url_parsed_scheme(
            portforward_url_text(cluster_url@, namespace@, pod@, port),
        ) is None,
        (r matches Err(PortForwardUrlError::SetScheme)) <==> (url_parsed_scheme(
            portforward_url_text(cluster_url@, namespace@, pod@, port),
        ) matches Some(s) && !url_accepts_scheme(
            portforward_url_text(cluster_url@, namespace@, pod@, port),
            spec_websocket_scheme(s),
        )),
        r matches Ok(p) ==> (url_parsed_scheme(
            portforward_url_text(cluster_url@, namespace@, pod@, port),
        ) matches Some(s) && p.scheme@ == spec_websocket_scheme(s) && url_accepts_scheme(
            portforward_url_text(cluster_url@, namespace@, pod@, port),
            spec_websocket_scheme(s),
        )),
        url_parsed_scheme(portforward_url_text(cluster_url@, namespace@, pod@, port)) == Some(
            "https"@,
        ) ==> (r matches Ok(p) && p.scheme@ == "wss"@),
        url_parsed_scheme(portforward_url_text(cluster_url@, namespace@, pod@, port)) == Some(
            "http"@,
        ) ==> (r matches Ok(p) && p.scheme@ == "ws"@),
{
    proof {
        reveal_strlit("https");
        reveal_strlit("http");
        assert("http"@.len() != "https"@.len());
    }
    let text = portforward_url_string(cluster_url, namespace, pod, port);
    let scheme = match parse_url(text.as_str()) {
        Some((_, scheme)) => scheme,
        None => {
            return Err(PortForwardUrlError::Construct);
        },
    };
    let ws = websocket_scheme(scheme.as_str());
    match url_with_scheme(text.as_str(), ws.as_str()) {
        Some((url, set)) => Ok(PortForwardUrl { url, scheme: set }),
        None => Err(PortForwardUrlError::SetScheme),
    }
}

/// Data channel index for the (single) forwarded port. Kubernetes' WebSocket
/// channel protocols multiplex several logical streams over one connection by
/// prefixing every binary message with a 1-byte channel id; port-forward uses
/// two channels per requested port (data, then error) in the order the ports
/// were requested. Since exactly one port is ever requested here, its data
/// channel is always 0 and its error channel is always 1.
pub const CHANNEL_DATA: u8 = 0;

/// The error channel of the forwarded port.
pub const CHANNEL_ERROR: u8 = 1;

/// What a binary WebSocket message from the API server carries.
#[derive(Clone, Copy, Debug, PartialEq, Eq, Structural)]
pub enum PortForwardMessage {
    /// Bytes for the forwarded port: the message after its channel byte.
    Data,
    /// An error report from the cluster: the message after its channel byte.
    Error,
    /// Nothing to act on (empty data, another channel, an empty message).
    Ignore,
}

/// What a binary message means: data on channel 0 (with at least one byte
/// of payload), an error on channel 1, or nothing.
pub open spec fn spec_classify(message: Seq<u8>) -> PortForwardMessage {
    if message.len() > 1 && message[0] == CHANNEL_DATA {
        PortForwardMessage::Data
    } else if message.len() > 0 && message[0] == CHANNEL_ERROR {
        PortForwardMessage::Error
    } else {
        PortForwardMessage::Ignore
    }
}

/// Classifies a binary WebSocket message from the port-forward stream.
pub fn classify_portforward_message(message: &[u8]) -> (r: PortForwardMessage)
    ensures
        r == spec_classify(message@),
{
    if message.len() > 1 && message[0] == CHANNEL_DATA {
        PortForwardMessage::Data
    } else if message.len() > 0 && message[0] == CHANNEL_ERROR {
        PortForwardMessage::Error
    } else {
        PortForwardMessage::Ignore
    }
}

/// The binary message carrying `payload` to the forwarded port: the data
/// channel byte, then the payload.
pub fn data_channel_message(payload: &[u8]) -> (r: Vec<u8>)
    ensures
        r@ == seq![CHANNEL_DATA] + payload@,
{
    let mut r: Vec<u8> = Vec::new();
    r.push(CHANNEL_DATA);
    for i in 0..payload.len()
        invariant
            r@ == seq![CHANNEL_DATA] + payload@.take(i as int),
    {
        r.push(payload[i]);
        assert(payload@.take(i + 1) == payload@.take(i as int).push(payload@[i as int]));
    }
    assert(payload@.take(payload@.len() as int) == payload@);
    r
}

/// The stream is demultiplexed by its first byte alone: anything on the
/// error channel is an error report, data needs at least one payload byte,
/// and every other channel, like an empty message, is ignored.
pub proof fn law_portforward_channels(payload: Seq<u8>, channel: u8)
    ensures
        spec_classify(seq![CHANNEL_ERROR] + payload) == PortForwardMessage::Error,
        spec_classify(seq![CHANNEL_DATA]) == PortForwardMessage::Ignore,
        spec_classify(Seq::<u8>::empty()) == PortForwardMessage::Ignore,
        channel != CHANNEL_DATA && channel != CHANNEL_ERROR ==> spec_classify(seq![channel] + payload)
            == PortForwardMessage::Ignore,
        payload.len() > 0 ==> spec_classify(seq![CHANNEL_DATA] + payload) == PortForwardMessage::Data,
{
    assert((seq![CHANNEL_ERROR] + payload)[0] == CHANNEL_ERROR);
    assert((seq![channel] + payload)[0] == channel);
    assert((seq![CHANNEL_DATA] + payload)[0] == CHANNEL_DATA);
}

/// Bytes sent to the forwarded port come back out of the stream as data
/// carrying exactly those bytes (for any non-empty payload).
pub proof fn law_data_channel_round_trip(payload: Seq<u8>)
    requires
        payload.len() > 0,
    ensures
        spec_classify(seq![CHANNEL_DATA] + payload) == PortForwardMessage::Data,
        (seq![CHANNEL_DATA] + payload).drop_first() == payload,
{
    assert((seq![CHANNEL_DATA] + payload).drop_first() =~= payload);
}

} // verus!
