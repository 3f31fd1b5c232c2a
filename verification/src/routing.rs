//! Routing adapters for agent and test traffic isolation: Gateway API
//! inventory and capabilities, temporary HTTPRoute manifests, and the label
//! selectors that clean them up.

use vstd::prelude::*;
use crate::ids::KubernetesResourceRef;
use crate::k8s::{GatewayClassSummary, GatewayListenerSummary, GatewaySummary, HttpRouteSummary};
use crate::manifest::{first_absent_ownership, kept_labels, missing_ownership_label, preserved_label, sandbox_labels};
use crate::metadata::{
    has_key, has_source, key_at, kept_from, last_of_key, last_per_key, last_value, lemma_filter_last_value,
    lemma_last_per_key_unique, lemma_last_per_key_views, lemma_last_value_at, lemma_last_value_witness, merge_copies, MetadataEntry,
};
use crate::order::{sort_unique_strings, sorted_unique_strings, views};
use crate::text::{ascii_upper, push_str, str_eq, string_of, to_ascii_uppercase};
use crate::values::{RouteSelector, SelectorModel};

verus! {

/// Routing backend supported by Kubeply.
#[derive(Debug, Clone, Copy, PartialEq, Eq, Structural)]
pub enum RoutingBackend {
    /// Gateway API HTTPRoutes.
    GatewayApi,
    /// NGINX Ingress annotations.
    NginxIngress,
    /// Preview routing without a shared gateway.
    FallbackPreview,
}

/// Successful or missing Gateway API discovery lists.
#[derive(Clone, Copy, Debug)]
pub struct GatewayApiDiscoveryInput<'a> {
    /// GatewayClass list when the API resource was discovered.
    pub gateway_classes: Option<&'a [GatewayClassSummary]>,
    /// Gateway list when the API resource was discovered.
    pub gateways: Option<&'a [GatewaySummary]>,
    /// HTTPRoute list when the API resource was discovered.
    pub http_routes: Option<&'a [HttpRouteSummary]>,
}

/// Gateway API resource inventory readiness for route planning.
#[derive(Debug, Clone, Copy, PartialEq, Eq, Structural)]
pub enum GatewayApiResourceStatus {
    /// No Gateway API resources were discovered.
    Unavailable,
    /// Some Gateway API resources were discovered, but core resources are missing.
    Partial,
    /// GatewayClass and Gateway resources were discovered.
    Available,
}

impl GatewayApiResourceStatus {
    /// The stable snake_case status name.
    pub open spec fn name(self) -> Seq<char> {
        match self {
            GatewayApiResourceStatus::Unavailable => "unavailable"@,
            GatewayApiResourceStatus::Partial => "partial"@,
            GatewayApiResourceStatus::Available => "available"@,
        }
    }

    /// Return the stable snake_case string form of this status.
    pub fn as_str(self) -> (r: &'static str)
        ensures
            r@ == self.name(),
    {
        match self {
            GatewayApiResourceStatus::Unavailable => "unavailable",
            GatewayApiResourceStatus::Partial => "partial",
            GatewayApiResourceStatus::Available => "available",
        }
    }
}

/// Detected Gateway API inventory relevant to temporary session routing.
#[derive(Debug, Clone, PartialEq, Eq)]
pub struct GatewayApiResourceDetection {
    /// Overall Gateway API resource inventory status.
    pub status: GatewayApiResourceStatus,
    /// Whether GatewayClass could be listed through the Gateway API.
    pub gateway_class_api_detected: bool,
    /// Whether Gateway could be listed through the Gateway API.
    pub gateway_api_detected: bool,
    /// Whether HTTPRoute could be listed through the Gateway API.
    pub http_route_api_detected: bool,
    /// Number of discovered GatewayClass resources.
    pub gateway_class_count: usize,
    /// Number of discovered Gateway resources in the target namespace.
    pub gateway_count: usize,
    /// Number of discovered HTTPRoute resources in the target namespace.
    pub http_route_count: usize,
    /// Discovered GatewayClass controller names in deterministic order.
    pub controller_names: Vec<String>,
    /// Discovered GatewayClass names in deterministic order.
    pub gateway_class_names: Vec<String>,
    /// Discovered Gateway resource names in deterministic order.
    pub gateway_names: Vec<String>,
    /// Discovered HTTPRoute resource names in deterministic order.
    pub http_route_names: Vec<String>,
}

impl GatewayApiResourceDetection {
    /// Return true when inventory can support temporary HTTPRoute planning.
    pub fn supports_temporary_http_routes(&self) -> (r: bool)
        ensures
            r == (self.status == GatewayApiResourceStatus::Available),
    {
        match self.status {
            GatewayApiResourceStatus::Available => true,
            _ => false,
        }
    }
}

/// Gateway route capability readiness.
#[derive(Debug, Clone, Copy, PartialEq, Eq, Structural)]
pub enum GatewayRouteCapabilityStatus {
    /// Route capabilities cannot currently be used.
    Unsupported,
    /// Some routing inputs are present, but capability is incomplete.
    Partial,
    /// Required inputs for temporary HTTPRoute planning are present.
    Supported,
}

impl GatewayRouteCapabilityStatus {
    /// The stable snake_case status name.
    pub open spec fn name(self) -> Seq<char> {
        match self {
            GatewayRouteCapabilityStatus::Unsupported => "unsupported"@,
            GatewayRouteCapabilityStatus::Partial => "partial"@,
            GatewayRouteCapabilityStatus::Supported => "supported"@,
        }
    }

    /// Return the stable snake_case string form of this status.
    pub fn as_str(self) -> (r: &'static str)
        ensures
            r@ == self.name(),
    {
        match self {
            GatewayRouteCapabilityStatus::Unsupported => "unsupported",
            GatewayRouteCapabilityStatus::Partial => "partial",
            GatewayRouteCapabilityStatus::Supported => "supported",
        }
    }
}

/// Gateway route capability limitation.
#[derive(Debug, Clone, Copy, PartialEq, Eq, Structural)]
pub enum GatewayRouteCapabilityLimitation {
    /// No Gateway API resources could be discovered.
    GatewayApiUnavailable,
    /// Gateway API discovery is incomplete.
    GatewayApiPartial,
    /// No GatewayClass resources were found.
    MissingGatewayClass,
    /// No Gateway resources were found.
    MissingGateway,
    /// HTTPRoute API discovery did not succeed.
    MissingHttpRouteApi,
    /// No Gateway listener can accept HTTPRoute traffic.
    NoHttpCompatibleListener,
}

impl GatewayRouteCapabilityLimitation {
    /// The stable snake_case limitation name.
    pub open spec fn name(self) -> Seq<char> {
        match self {
            GatewayRouteCapabilityLimitation::GatewayApiUnavailable => "gateway_api_unavailable"@,
            GatewayRouteCapabilityLimitation::GatewayApiPartial => "gateway_api_partial"@,
            GatewayRouteCapabilityLimitation::MissingGatewayClass => "missing_gateway_class"@,
            GatewayRouteCapabilityLimitation::MissingGateway => "missing_gateway"@,
            GatewayRouteCapabilityLimitation::MissingHttpRouteApi => "missing_http_route_api"@,
            GatewayRouteCapabilityLimitation::NoHttpCompatibleListener => "no_http_compatible_listener"@,
        }
    }

    /// Return the stable snake_case string form of this limitation.
    pub fn as_str(self) -> (r: &'static str)
        ensures
            r@ == self.name(),
    {
        match self {
            GatewayRouteCapabilityLimitation::GatewayApiUnavailable => "gateway_api_unavailable",
            GatewayRouteCapabilityLimitation::GatewayApiPartial => "gateway_api_partial",
            GatewayRouteCapabilityLimitation::MissingGatewayClass => "missing_gateway_class",
            GatewayRouteCapabilityLimitation::MissingGateway => "missing_gateway",
            GatewayRouteCapabilityLimitation::MissingHttpRouteApi => "missing_http_route_api",
            GatewayRouteCapabilityLimitation::NoHttpCompatibleListener => "no_http_compatible_listener",
        }
    }
}

/// Supported Gateway API route capabilities for a sandbox session.
#[derive(Debug, Clone, PartialEq, Eq)]
pub struct GatewayRouteCapabilities {
    /// Gateway API resources used to derive these capabilities.
    pub resources: GatewayApiResourceDetection,
    /// Overall capability status for temporary Gateway API routes.
    pub status: GatewayRouteCapabilityStatus,
    /// Whether temporary HTTPRoute objects can be planned.
    pub supports_temporary_http_routes: bool,
    /// Whether header-based sandbox routing can be planned.
    pub supports_header_based_routing: bool,
    /// Whether host-based preview routing can be planned.
    pub supports_host_based_routing: bool,
    /// Gateway resources with HTTP-compatible listeners in deterministic order.
    pub http_compatible_gateway_names: Vec<String>,
    /// Listener protocols observed on discovered Gateway resources.
    pub listener_protocols: Vec<String>,
    /// Limitations preventing or constraining route planning.
    pub limitations: Vec<GatewayRouteCapabilityLimitation>,
}

/// A resource name qualified by its namespace, or the bare name without one.
pub open spec fn qualified(namespace: Seq<char>, name: Seq<char>) -> Seq<char> {
    if namespace.len() == 0 {
        name
    } else {
        namespace + "/"@ + name
    }
}

/// Return a stable namespace-qualified resource name.
pub fn qualified_resource_name(namespace: &str, name: &str) -> (r: String)
    ensures
        r@ == qualified(namespace@, name@),
{
    if namespace.unicode_len() == 0 {
        return string_of(name);
    }
    let mut r = string_of(namespace);
    push_str(&mut r, "/");
    push_str(&mut r, name);
    r
}

/// Names of GatewayClasses, in order.
pub open spec fn class_names(s: Seq<GatewayClassSummary>) -> Seq<Seq<char>> {
    Seq::new(s.len(), |i: int| s[i].name@)
}

/// Controller names that GatewayClasses declare, in order.
pub open spec fn controller_names(s: Seq<GatewayClassSummary>) -> Seq<Seq<char>>
    decreases s.len(),
{
    if s.len() == 0 {
        Seq::empty()
    } else {
        controller_names(s.drop_last()) + match s.last().controller_name {
            Some(c) => seq![c@],
            None => Seq::empty(),
        }
    }
}

/// Qualified names of Gateways, in order.
pub open spec fn gateway_names(s: Seq<GatewaySummary>) -> Seq<Seq<char>> {
    Seq::new(s.len(), |i: int| qualified(s[i].namespace@, s[i].name@))
}

/// Qualified names of HTTPRoutes, in order.
pub open spec fn route_names(s: Seq<HttpRouteSummary>) -> Seq<Seq<char>> {
    Seq::new(s.len(), |i: int| qualified(s[i].namespace@, s[i].name@))
}

/// The list a discovery produced, empty when the API was not discovered.
pub open spec fn listed<T>(o: Option<&[T]>) -> Seq<T> {
    match o {
        Some(s) => s@,
        None => Seq::empty(),
    }
}

/// Inventory status: unavailable when nothing was discovered; available when
/// all three APIs were discovered with at least one GatewayClass and one
/// Gateway; partial otherwise.
pub open spec fn resource_status(
    gateway_class_count: nat,
    gateway_count: nat,
    gateway_class_api_detected: bool,
    gateway_api_detected: bool,
    http_route_api_detected: bool,
) -> GatewayApiResourceStatus {
    if !gateway_class_api_detected && !gateway_api_detected && !http_route_api_detected {
        GatewayApiResourceStatus::Unavailable
    } else if gateway_class_api_detected && gateway_api_detected && http_route_api_detected
        && gateway_class_count > 0 && gateway_count > 0 {
        GatewayApiResourceStatus::Available
    } else {
        GatewayApiResourceStatus::Partial
    }
}

/// What a detection reports for a discovery input.
pub open spec fn detection_of(input: GatewayApiDiscoveryInput, d: GatewayApiResourceDetection) -> bool {
    let classes = listed(input.gateway_classes);
    let gateways = listed(input.gateways);
    let routes = listed(input.http_routes);
    &&& d.gateway_class_api_detected == input.gateway_classes is Some
    &&& d.gateway_api_detected == input.gateways is Some
    &&& d.http_route_api_detected == input.http_routes is Some
    &&& d.gateway_class_count == classes.len()
    &&& d.gateway_count == gateways.len()
    &&& d.http_route_count == routes.len()
    &&& d.status == resource_status(
        classes.len(),
        gateways.len(),
        input.gateway_classes is Some,
        input.gateways is Some,
        input.http_routes is Some,
    )
    &&& sorted_unique_strings(d.controller_names@, controller_names(classes))
    &&& sorted_unique_strings(d.gateway_class_names@, class_names(classes))
    &&& sorted_unique_strings(d.gateway_names@, gateway_names(gateways))
    &&& sorted_unique_strings(d.http_route_names@, route_names(routes))
}

/// Copy the names of GatewayClasses.
fn collect_class_names(s: &[GatewayClassSummary]) -> (r: Vec<String>)
    ensures
        views(r@) == class_names(s@),
{
    let mut r: Vec<String> = Vec::new();
    let n = s.len();
    for i in 0..n
        invariant
            n == s@.len(),
            views(r@) == class_names(s@.take(i as int)),
    {
        let ghost before = r@;
        r.push(s[i].name.clone());
        assert(views(r@) =~= views(before).push(s@[i as int].name@));
        assert(class_names(s@.take(i + 1)) =~= class_names(s@.take(i as int)).push(s@[i as int].name@));
    }
    assert(s@.take(n as int) =~= s@);
    r
}

/// Copy the controller names that GatewayClasses declare.
fn collect_controller_names(s: &[GatewayClassSummary]) -> (r: Vec<String>)
    ensures
        views(r@) == controller_names(s@),
{
    let mut r: Vec<String> = Vec::new();
    let n = s.len();
    for i in 0..n
        invariant
            n == s@.len(),
            views(r@) == controller_names(s@.take(i as int)),
    {
        assert(s@.take(i + 1).drop_last() =~= s@.take(i as int));
        match &s[i].controller_name {
            Some(c) => {
                r.push(c.clone());
                assert(views(r@) =~= controller_names(s@.take(i + 1)));
            },
            None => {
                assert(views(r@) =~= controller_names(s@.take(i + 1)));
            },
        }
    }
    assert(s@.take(n as int) =~= s@);
    r
}

/// Build the qualified names of Gateways.
fn collect_gateway_names(s: &[GatewaySummary]) -> (r: Vec<String>)
    ensures
        views(r@) == gateway_names(s@),
{
    let mut r: Vec<String> = Vec::new();
    let n = s.len();
    for i in 0..n
        invariant
            n == s@.len(),
            views(r@) == gateway_names(s@.take(i as int)),
    {
        let ghost before = r@;
        r.push(qualified_resource_name(s[i].namespace.as_str(), s[i].name.as_str()));
        assert(views(r@) =~= views(before).push(qualified(s@[i as int].namespace@, s@[i as int].name@)));
        assert(gateway_names(s@.take(i + 1)) =~= gateway_names(s@.take(i as int)).push(qualified(s@[i as int].namespace@, s@[i as int].name@)));
    }
    assert(s@.take(n as int) =~= s@);
    r
}

/// Build the qualified names of HTTPRoutes.
fn collect_route_names(s: &[HttpRouteSummary]) -> (r: Vec<String>)
    ensures
        views(r@) == route_names(s@),
{
    let mut r: Vec<String> = Vec::new();
    let n = s.len();
    for i in 0..n
        invariant
            n == s@.len(),
            views(r@) == route_names(s@.take(i as int)),
    {
        let ghost before = r@;
        r.push(qualified_resource_name(s[i].namespace.as_str(), s[i].name.as_str()));
        assert(views(r@) =~= views(before).push(qualified(s@[i as int].namespace@, s@[i as int].name@)));
        assert(route_names(s@.take(i + 1)) =~= route_names(s@.take(i as int)).push(qualified(s@[i as int].namespace@, s@[i as int].name@)));
    }
    assert(s@.take(n as int) =~= s@);
    r
}

/// Detect Gateway API routing inventory from Kubernetes discovery summaries.
pub fn detect_gateway_api_resources(input: GatewayApiDiscoveryInput) -> (r: GatewayApiResourceDetection)
    ensures
        detection_of(input, r),
{
    let empty_classes: &[GatewayClassSummary] = &[];
    let empty_gateways: &[GatewaySummary] = &[];
    let empty_routes: &[HttpRouteSummary] = &[];
    let classes = match input.gateway_classes {
        Some(c) => c,
        None => empty_classes,
    };
    let gateways = match input.gateways {
        Some(g) => g,
        None => empty_gateways,
    };
    let routes = match input.http_routes {
        Some(h) => h,
        None => empty_routes,
    };
    assert(classes@ == listed(input.gateway_classes));
    assert(gateways@ == listed(input.gateways));
    assert(routes@ == listed(input.http_routes));
    let gateway_class_api_detected = input.gateway_classes.is_some();
    let gateway_api_detected = input.gateways.is_some();
    let http_route_api_detected = input.http_routes.is_some();
    let status = if !gateway_class_api_detected && !gateway_api_detected && !http_route_api_detected {
        GatewayApiResourceStatus::Unavailable
    } else if gateway_class_api_detected && gateway_api_detected && http_route_api_detected
        && classes.len() > 0 && gateways.len() > 0 {
        GatewayApiResourceStatus::Available
    } else {
        GatewayApiResourceStatus::Partial
    };
    GatewayApiResourceDetection {
        status,
        gateway_class_api_detected,
        gateway_api_detected,
        http_route_api_detected,
        gateway_class_count: classes.len(),
        gateway_count: gateways.len(),
        http_route_count: routes.len(),
        controller_names: sort_unique_strings(collect_controller_names(classes)),
        gateway_class_names: sort_unique_strings(collect_class_names(classes)),
        gateway_names: sort_unique_strings(collect_gateway_names(gateways)),
        http_route_names: sort_unique_strings(collect_route_names(routes)),
    }
}

/// A listener protocol accepts HTTPRoute traffic: HTTP or HTTPS, in any case.
pub open spec fn http_compatible(protocol: Option<String>) -> bool {
    match protocol {
        Some(p) => ascii_upper(p@) == "HTTP"@ || ascii_upper(p@) == "HTTPS"@,
        None => false,
    }
}

/// Some listener of `ls` accepts HTTPRoute traffic.
pub open spec fn has_http_listener(ls: Seq<GatewayListenerSummary>) -> bool {
    exists|i: int| 0 <= i < ls.len() && http_compatible(#[trigger] ls[i].protocol)
}

/// Qualified names of the Gateways with an HTTP-compatible listener, in order.
pub open spec fn compatible_names(s: Seq<GatewaySummary>) -> Seq<Seq<char>>
    decreases s.len(),
{
    if s.len() == 0 {
        Seq::empty()
    } else {
        compatible_names(s.drop_last()) + if has_http_listener(s.last().listeners@) {
            seq![qualified(s.last().namespace@, s.last().name@)]
        } else {
            Seq::empty()
        }
    }
}

/// Uppercased protocols of listeners that declare one, in order.
pub open spec fn listener_protocol_names(ls: Seq<GatewayListenerSummary>) -> Seq<Seq<char>>
    decreases ls.len(),
{
    if ls.len() == 0 {
        Seq::empty()
    } else {
        listener_protocol_names(ls.drop_last()) + match ls.last().protocol {
            Some(p) => seq![ascii_upper(p@)],
            None => Seq::empty(),
        }
    }
}

/// Uppercased listener protocols of all Gateways, in order.
pub open spec fn protocol_names(s: Seq<GatewaySummary>) -> Seq<Seq<char>>
    decreases s.len(),
{
    if s.len() == 0 {
        Seq::empty()
    } else {
        protocol_names(s.drop_last()) + listener_protocol_names(s.last().listeners@)
    }
}

/// Overall capability status: supported when temporary routes can be
/// planned; otherwise unsupported without any Gateway API, partial with some.
pub open spec fn capability_status(
    status: GatewayApiResourceStatus,
    supports: bool,
) -> GatewayRouteCapabilityStatus {
    if supports {
        GatewayRouteCapabilityStatus::Supported
    } else if status == GatewayApiResourceStatus::Unavailable {
        GatewayRouteCapabilityStatus::Unsupported
    } else {
        GatewayRouteCapabilityStatus::Partial
    }
}

/// The limitations that keep temporary routes from being planned, in a fixed
/// order; none when they can be planned.
pub open spec fn limitations_of(
    d: GatewayApiResourceDetection,
    supports: bool,
    no_compatible_gateway: bool,
) -> Seq<GatewayRouteCapabilityLimitation> {
    if supports {
        Seq::empty()
    } else {
        (match d.status {
            GatewayApiResourceStatus::Unavailable => seq![GatewayRouteCapabilityLimitation::GatewayApiUnavailable],
            GatewayApiResourceStatus::Partial => seq![GatewayRouteCapabilityLimitation::GatewayApiPartial],
            GatewayApiResourceStatus::Available => Seq::empty(),
        }) + (if d.gateway_class_count == 0 {
            seq![GatewayRouteCapabilityLimitation::MissingGatewayClass]
        } else {
            Seq::empty()
        }) + (if d.gateway_count == 0 {
            seq![GatewayRouteCapabilityLimitation::MissingGateway]
        } else {
            Seq::empty()
        }) + (if !d.http_route_api_detected {
            seq![GatewayRouteCapabilityLimitation::MissingHttpRouteApi]
        } else {
            Seq::empty()
        }) + (if d.gateway_count > 0 && no_compatible_gateway {
            seq![GatewayRouteCapabilityLimitation::NoHttpCompatibleListener]
        } else {
            Seq::empty()
        })
    }
}

/// Decide whether a listener protocol accepts HTTPRoute traffic.
fn is_http_compatible_protocol(protocol: &Option<String>) -> (r: bool)
    ensures
        r == http_compatible(*protocol),
{
    match protocol {
        Some(p) => {
            let u = to_ascii_uppercase(p.as_str());
            str_eq(u.as_str(), "HTTP") || str_eq(u.as_str(), "HTTPS")
        },
        None => false,
    }
}

/// Decide whether some listener accepts HTTPRoute traffic.
fn has_http_compatible_listener(ls: &Vec<GatewayListenerSummary>) -> (r: bool)
    ensures
        r == has_http_listener(ls@),
{
    let n = ls.len();
    for i in 0..n
        invariant
            n == ls@.len(),
            forall|j: int| 0 <= j < i ==> !http_compatible(#[trigger] ls@[j].protocol),
    {
        if is_http_compatible_protocol(&ls[i].protocol) {
            return true;
        }
    }
    false
}

/// Qualified names of Gateways with HTTP-compatible listeners.
fn collect_compatible_names(s: &[GatewaySummary]) -> (r: Vec<String>)
    ensures
        views(r@) == compatible_names(s@),
{
    let mut r: Vec<String> = Vec::new();
    let n = s.len();
    for i in 0..n
        invariant
            n == s@.len(),
            views(r@) == compatible_names(s@.take(i as int)),
    {
        assert(s@.take(i + 1).drop_last() =~= s@.take(i as int));
        if has_http_compatible_listener(&s[i].listeners) {
            let ghost before = r@;
            r.push(qualified_resource_name(s[i].namespace.as_str(), s[i].name.as_str()));
            assert(views(r@) =~= views(before).push(qualified(s@[i as int].namespace@, s@[i as int].name@)));
        }
        assert(views(r@) =~= compatible_names(s@.take(i + 1)));
    }
    assert(s@.take(n as int) =~= s@);
    r
}

/// Append the uppercased protocols of listeners that declare one.
fn push_listener_protocols(r: &mut Vec<String>, ls: &Vec<GatewayListenerSummary>)
    ensures
        views(final(r)@) == views(old(r)@) + listener_protocol_names(ls@),
{
    let ghost start = views(r@);
    let n = ls.len();
    for i in 0..n
        invariant
            n == ls@.len(),
            views(r@) == start + listener_protocol_names(ls@.take(i as int)),
    {
        assert(ls@.take(i + 1).drop_last() =~= ls@.take(i as int));
        match &ls[i].protocol {
            Some(p) => {
                let ghost before = r@;
                r.push(to_ascii_uppercase(p.as_str()));
                assert(views(r@) =~= views(before).push(ascii_upper(p@)));
            },
            None => {},
        }
        assert(views(r@) =~= start + listener_protocol_names(ls@.take(i + 1)));
    }
    assert(ls@.take(n as int) =~= ls@);
}

/// Uppercased listener protocols of all Gateways.
fn collect_protocols(s: &[GatewaySummary]) -> (r: Vec<String>)
    ensures
        views(r@) == protocol_names(s@),
{
    let mut r: Vec<String> = Vec::new();
    let n = s.len();
    for i in 0..n
        invariant
            n == s@.len(),
            views(r@) == protocol_names(s@.take(i as int)),
    {
        assert(s@.take(i + 1).drop_last() =~= s@.take(i as int));
        push_listener_protocols(&mut r, &s[i].listeners);
    }
    assert(s@.take(n as int) =~= s@);
    r
}

/// A sorted list of distinct strings is empty exactly when its source is.
proof fn lemma_sorted_unique_strings_empty(r: Seq<String>, v: Seq<Seq<char>>)
    requires
        sorted_unique_strings(r, v),
    ensures
        r.len() == 0 <==> v.len() == 0,
{
    if v.len() > 0 {
        assert(v.contains(v[0]));
    }
    if r.len() > 0 {
        assert(v.contains(r[0]@));
    }
}

/// Model supported Gateway API route capabilities from discovery summaries.
pub fn model_gateway_route_capabilities(input: GatewayApiDiscoveryInput) -> (r: GatewayRouteCapabilities)
    ensures
        detection_of(input, r.resources),
        sorted_unique_strings(r.http_compatible_gateway_names@, compatible_names(listed(input.gateways))),
        sorted_unique_strings(r.listener_protocols@, protocol_names(listed(input.gateways))),
        r.supports_temporary_http_routes == (r.resources.status == GatewayApiResourceStatus::Available
            && compatible_names(listed(input.gateways)).len() > 0),
        r.supports_header_based_routing == r.supports_temporary_http_routes,
        r.supports_host_based_routing == r.supports_temporary_http_routes,
        r.status == capability_status(r.resources.status, r.supports_temporary_http_routes),
        r.limitations@ == limitations_of(
            r.resources,
            r.supports_temporary_http_routes,
            compatible_names(listed(input.gateways)).len() == 0,
        ),
{
    let empty_gateways: &[GatewaySummary] = &[];
    let gateways = match input.gateways {
        Some(g) => g,
        None => empty_gateways,
    };
    assert(gateways@ == listed(input.gateways));
    let resources = detect_gateway_api_resources(input);
    let compatible = sort_unique_strings(collect_compatible_names(gateways));
    let protocols = sort_unique_strings(collect_protocols(gateways));
    proof {
        lemma_sorted_unique_strings_empty(compatible@, compatible_names(gateways@));
    }
    let supports = resources.supports_temporary_http_routes() && compatible.len() > 0;
    let no_compatible = compatible.len() == 0;
    let mut limitations: Vec<GatewayRouteCapabilityLimitation> = Vec::new();
    if !supports {
        match resources.status {
            GatewayApiResourceStatus::Unavailable => limitations.push(GatewayRouteCapabilityLimitation::GatewayApiUnavailable),
            GatewayApiResourceStatus::Partial => limitations.push(GatewayRouteCapabilityLimitation::GatewayApiPartial),
            GatewayApiResourceStatus::Available => {},
        }
        if resources.gateway_class_count == 0 {
            limitations.push(GatewayRouteCapabilityLimitation::MissingGatewayClass);
        }
        if resources.gateway_count == 0 {
            limitations.push(GatewayRouteCapabilityLimitation::MissingGateway);
        }
        if !resources.http_route_api_detected {
            limitations.push(GatewayRouteCapabilityLimitation::MissingHttpRouteApi);
        }
        if resources.gateway_count > 0 && no_compatible {
            limitations.push(GatewayRouteCapabilityLimitation::NoHttpCompatibleListener);
        }
    }
    assert(limitations@ =~= limitations_of(resources, supports, no_compatible));
    let status = if supports {
        GatewayRouteCapabilityStatus::Supported
    } else {
        match resources.status {
            GatewayApiResourceStatus::Unavailable => GatewayRouteCapabilityStatus::Unsupported,
            _ => GatewayRouteCapabilityStatus::Partial,
        }
    };
    GatewayRouteCapabilities {
        resources,
        status,
        supports_temporary_http_routes: supports,
        supports_header_based_routing: supports,
        supports_host_based_routing: supports,
        http_compatible_gateway_names: compatible,
        listener_protocols: protocols,
        limitations,
    }
}

/// Input for generating a temporary Gateway API HTTPRoute manifest.
#[derive(Clone, Copy, Debug)]
pub struct GatewayHttpRouteManifestInput<'a> {
    /// Planned HTTPRoute resource to create for the sandbox session.
    pub route: &'a KubernetesResourceRef,
    /// Gateway parent that should receive the temporary route attachment.
    pub parent_gateway: &'a KubernetesResourceRef,
    /// Service backend that should receive matching sandbox traffic.
    pub backend_service: &'a KubernetesResourceRef,
    /// Backend Service port used by the temporary route.
    pub backend_port: u16,
    /// Request selector that isolates sandbox traffic from normal users.
    pub selector: &'a RouteSelector,
    /// Metadata labels to attach to the temporary HTTPRoute.
    pub labels: &'a [MetadataEntry],
    /// Metadata annotations to attach to the temporary HTTPRoute.
    pub annotations: &'a [MetadataEntry],
}

/// Temporary Gateway API HTTPRoute manifest for a sandbox session.
#[derive(Debug, Clone, PartialEq, Eq)]
pub struct GatewayHttpRouteManifest {
    /// Gateway API version for the HTTPRoute resource.
    pub api_version: &'static str,
    /// Kubernetes resource kind for this manifest.
    pub kind: &'static str,
    /// Kubernetes metadata for the generated HTTPRoute.
    pub metadata: GatewayHttpRouteMetadata,
    /// Gateway API HTTPRoute specification.
    pub spec: GatewayHttpRouteSpec,
}

/// Kubernetes metadata for a temporary Gateway API HTTPRoute.
#[derive(Debug, Clone, PartialEq, Eq)]
pub struct GatewayHttpRouteMetadata {
    /// Namespace that contains the temporary HTTPRoute.
    pub namespace: String,
    /// Name of the temporary HTTPRoute.
    pub name: String,
    /// Labels attached to the temporary HTTPRoute, by key.
    pub labels: Vec<MetadataEntry>,
    /// Annotations attached to the temporary HTTPRoute, by key.
    pub annotations: Vec<MetadataEntry>,
}

/// Gateway API HTTPRoute spec for a sandbox session.
#[derive(Debug, Clone, PartialEq, Eq)]
pub struct GatewayHttpRouteSpec {
    /// Parent Gateway references that should attach this route.
    pub parent_refs: Vec<GatewayHttpRouteParentRef>,
    /// Hostnames matched by this route when host preview routing is used.
    pub hostnames: Vec<String>,
    /// Routing rules that forward matching traffic to the sandbox backend.
    pub rules: Vec<GatewayHttpRouteRule>,
}

/// Gateway API parent reference for a temporary HTTPRoute.
#[derive(Debug, Clone, PartialEq, Eq)]
pub struct GatewayHttpRouteParentRef {
    /// Referenced parent kind.
    pub kind: &'static str,
    /// Referenced parent Gateway name.
    pub name: String,
    /// Referenced parent Gateway namespace when it differs from the route.
    pub namespace: Option<String>,
}

/// Gateway API HTTPRoute rule for sandbox traffic.
#[derive(Debug, Clone, PartialEq, Eq)]
pub struct GatewayHttpRouteRule {
    /// Request matches that should select sandbox traffic.
    pub matches: Vec<GatewayHttpRouteMatch>,
    /// Service backends receiving the matched traffic.
    pub backend_refs: Vec<GatewayHttpRouteBackendRef>,
}

/// Gateway API HTTPRoute match for sandbox traffic.
#[derive(Debug, Clone, PartialEq, Eq)]
pub struct GatewayHttpRouteMatch {
    /// Header matchers for header-isolated sandbox traffic.
    pub headers: Vec<GatewayHttpRouteHeaderMatch>,
}

/// Gateway API HTTPRoute header matcher.
#[derive(Debug, Clone, PartialEq, Eq)]
pub struct GatewayHttpRouteHeaderMatch {
    /// Gateway API header match type.
    pub match_type: &'static str,
    /// HTTP header name to match.
    pub name: String,
    /// HTTP header value to match exactly.
    pub value: String,
}

/// Gateway API HTTPRoute backend reference.
#[derive(Debug, Clone, PartialEq, Eq)]
pub struct GatewayHttpRouteBackendRef {
    /// Referenced backend kind.
    pub kind: &'static str,
    /// Referenced backend Service name.
    pub name: String,
    /// Referenced backend Service port.
    pub port: u16,
}

/// Cleanup target for a generated Gateway API HTTPRoute.
#[derive(Debug, Clone, PartialEq, Eq)]
pub struct GatewayHttpRouteCleanupTarget {
    /// Gateway API version for the HTTPRoute resource.
    pub api_version: &'static str,
    /// Kubernetes resource kind for this cleanup target.
    pub kind: &'static str,
    /// Namespace containing the temporary HTTPRoute.
    pub namespace: String,
    /// Name of the temporary HTTPRoute.
    pub name: String,
    /// Label selector that must match before cleanup deletes the route.
    pub selector: GatewayRouteCleanupSelector,
}

/// Kubernetes label selector used to clean up Gateway API routes.
#[derive(Debug, Clone, PartialEq, Eq)]
pub struct GatewayRouteCleanupSelector {
    /// Required ownership labels for route cleanup, by key.
    pub match_labels: Vec<MetadataEntry>,
}

/// Error returned while generating a temporary Gateway API HTTPRoute manifest.
#[derive(Debug, Clone, PartialEq, Eq)]
pub enum GatewayHttpRouteManifestError {
    /// The planned route resource is not an HTTPRoute.
    RouteKind { kind: String },
    /// The parent resource is not a Gateway.
    ParentKind { kind: String },
    /// The backend resource is not a Service.
    BackendKind { kind: String },
    /// The backend Service requires unsupported cross-namespace routing.
    BackendNamespace { route_namespace: String, backend_namespace: String },
    /// Header-based routing is not supported by the modeled Gateway capabilities.
    HeaderRoutingUnavailable,
    /// The route selector is not a header selector.
    HeaderSelectorRequired { kind: String },
    /// Host-based preview routing is not supported by the modeled Gateway capabilities.
    HostRoutingUnavailable,
    /// The route selector is not a host selector.
    HostSelectorRequired { kind: String },
    /// A required route ownership label is missing.
    MissingOwnershipLabel { key: &'static str },
}

impl GatewayHttpRouteManifestError {
    /// The human-readable message for this error.
    pub open spec fn text(self) -> Seq<char> {
        match self {
            GatewayHttpRouteManifestError::RouteKind { kind } =>
                "expected HTTPRoute route resource, found "@ + kind@,
            GatewayHttpRouteManifestError::ParentKind { kind } =>
                "expected Gateway parent resource, found "@ + kind@,
            GatewayHttpRouteManifestError::BackendKind { kind } =>
                "expected Service backend resource, found "@ + kind@,
            GatewayHttpRouteManifestError::BackendNamespace { route_namespace, backend_namespace } =>
                "HTTPRoute backend service must be in route namespace "@ + route_namespace@
                    + ", found "@ + backend_namespace@,
            GatewayHttpRouteManifestError::HeaderRoutingUnavailable =>
                "Gateway capabilities do not support header-based routing"@,
            GatewayHttpRouteManifestError::HeaderSelectorRequired { kind } =>
                "expected header route selector, found "@ + kind@,
            GatewayHttpRouteManifestError::HostRoutingUnavailable =>
                "Gateway capabilities do not support host-based preview routing"@,
            GatewayHttpRouteManifestError::HostSelectorRequired { kind } =>
                "expected host route selector, found "@ + kind@,
            GatewayHttpRouteManifestError::MissingOwnershipLabel { key } =>
                "HTTPRoute manifest is missing ownership label `"@ + key@ + "`"@,
        }
    }

    /// Render the human-readable message for this error.
    pub fn to_string(&self) -> (m: String)
        ensures
            m@ == self.text(),
    {
        match self {
            GatewayHttpRouteManifestError::RouteKind { kind } => {
                let mut m = string_of("expected HTTPRoute route resource, found ");
                push_str(&mut m, kind.as_str());
                m
            },
            GatewayHttpRouteManifestError::ParentKind { kind } => {
                let mut m = string_of("expected Gateway parent resource, found ");
                push_str(&mut m, kind.as_str());
                m
            },
            GatewayHttpRouteManifestError::BackendKind { kind } => {
                let mut m = string_of("expected Service backend resource, found ");
                push_str(&mut m, kind.as_str());
                m
            },
            GatewayHttpRouteManifestError::BackendNamespace { route_namespace, backend_namespace } => {
                let mut m = string_of("HTTPRoute backend service must be in route namespace ");
                push_str(&mut m, route_namespace.as_str());
                push_str(&mut m, ", found ");
                push_str(&mut m, backend_namespace.as_str());
                m
            },
            GatewayHttpRouteManifestError::HeaderRoutingUnavailable => string_of(
                "Gateway capabilities do not support header-based routing",
            ),
            GatewayHttpRouteManifestError::HeaderSelectorRequired { kind } => {
                let mut m = string_of("expected header route selector, found ");
                push_str(&mut m, kind.as_str());
                m
            },
            GatewayHttpRouteManifestError::HostRoutingUnavailable => string_of(
                "Gateway capabilities do not support host-based preview routing",
            ),
            GatewayHttpRouteManifestError::HostSelectorRequired { kind } => {
                let mut m = string_of("expected host route selector, found ");
                push_str(&mut m, kind.as_str());
                m
            },
            GatewayHttpRouteManifestError::MissingOwnershipLabel { key } => {
                let mut m = string_of("HTTPRoute manifest is missing ownership label `");
                push_str(&mut m, key);
                push_str(&mut m, "`");
                m
            },
        }
    }
}

/// Why the resources of a route input are refused, in the order the checks
/// apply: route kind, parent kind, backend kind, backend namespace.
pub open spec fn route_resources_failure(input: GatewayHttpRouteManifestInput, e: GatewayHttpRouteManifestError) -> bool {
    let route = input.route@;
    let parent = input.parent_gateway@;
    let backend = input.backend_service@;
    match e {
        GatewayHttpRouteManifestError::RouteKind { kind } => route.1 != "HTTPRoute"@ && kind@ == route.1,
        GatewayHttpRouteManifestError::ParentKind { kind } => route.1 == "HTTPRoute"@ && parent.1
            != "Gateway"@ && kind@ == parent.1,
        GatewayHttpRouteManifestError::BackendKind { kind } => route.1 == "HTTPRoute"@ && parent.1
            == "Gateway"@ && backend.1 != "Service"@ && kind@ == backend.1,
        GatewayHttpRouteManifestError::BackendNamespace { route_namespace, backend_namespace } =>
            route.1 == "HTTPRoute"@ && parent.1 == "Gateway"@ && backend.1 == "Service"@ && route.0
            != backend.0 && route_namespace@ == route.0 && backend_namespace@ == backend.0,
        _ => false,
    }
}

/// The resources of a route input are an HTTPRoute, a Gateway parent, and a
/// Service backend in the route's namespace.
pub open spec fn route_resources_ok(input: GatewayHttpRouteManifestInput) -> bool {
    &&& input.route@.1 == "HTTPRoute"@
    &&& input.parent_gateway@.1 == "Gateway"@
    &&& input.backend_service@.1 == "Service"@
    &&& input.route@.0 == input.backend_service@.0
}

/// Why a route input is refused.
pub open spec fn route_input_failure(input: GatewayHttpRouteManifestInput, e: GatewayHttpRouteManifestError) -> bool {
    ||| route_resources_failure(input, e)
    ||| route_resources_ok(input) && (e matches GatewayHttpRouteManifestError::MissingOwnershipLabel { key }
        && first_absent_ownership(input.labels@) == Some(key@))
}

/// The contents of an optional string.
pub open spec fn opt_view(o: Option<String>) -> Option<Seq<char>> {
    match o {
        None => None,
        Some(s) => Some(s@),
    }
}

/// What a generated HTTPRoute manifest holds for its input.
pub open spec fn route_manifest_of(input: GatewayHttpRouteManifestInput, m: GatewayHttpRouteManifest) -> bool {
    let route = input.route@;
    let parent = input.parent_gateway@;
    &&& route_resources_ok(input)
    &&& first_absent_ownership(input.labels@) is None
    &&& m.api_version@ == "gateway.networking.k8s.io/v1"@
    &&& m.kind@ == "HTTPRoute"@
    &&& m.metadata.namespace@ == route.0
    &&& m.metadata.name@ == route.2
    &&& last_per_key(m.metadata.labels@, kept_labels(input.labels@))
    &&& last_per_key(m.metadata.annotations@, input.annotations@)
    &&& m.spec.parent_refs@.len() == 1
    &&& m.spec.parent_refs@[0].kind@ == "Gateway"@
    &&& m.spec.parent_refs@[0].name@ == parent.2
    &&& opt_view(m.spec.parent_refs@[0].namespace) == (if route.0 == parent.0 {
        None
    } else {
        Some(parent.0)
    })
    &&& views(m.spec.hostnames@) == match input.selector@ {
        SelectorModel::Host { hostname } => seq![hostname],
        SelectorModel::Header { .. } => Seq::<Seq<char>>::empty(),
    }
    &&& m.spec.rules@.len() == 1
    &&& match input.selector@ {
        SelectorModel::Header { name, value } => {
            &&& m.spec.rules@[0].matches@.len() == 1
            &&& m.spec.rules@[0].matches@[0].headers@.len() == 1
            &&& m.spec.rules@[0].matches@[0].headers@[0].match_type@ == "Exact"@
            &&& m.spec.rules@[0].matches@[0].headers@[0].name@ == name
            &&& m.spec.rules@[0].matches@[0].headers@[0].value@ == value
        },
        SelectorModel::Host { .. } => m.spec.rules@[0].matches@.len() == 0,
    }
    &&& m.spec.rules@[0].backend_refs@.len() == 1
    &&& m.spec.rules@[0].backend_refs@[0].kind@ == "Service"@
    &&& m.spec.rules@[0].backend_refs@[0].name@ == input.backend_service@.2
    &&& m.spec.rules@[0].backend_refs@[0].port == input.backend_port
}

/// What generating an HTTPRoute manifest for an input gives: the manifest,
/// or the reason the input is refused.
pub open spec fn route_result(
    input: GatewayHttpRouteManifestInput,
    r: Result<GatewayHttpRouteManifest, GatewayHttpRouteManifestError>,
) -> bool {
    match r {
        Ok(m) => route_manifest_of(input, m),
        Err(e) => route_input_failure(input, e),
    }
}

/// Check the resources of a route input.
fn validate_gateway_http_route_manifest_input(input: GatewayHttpRouteManifestInput) -> (r: Result<(), GatewayHttpRouteManifestError>)
    ensures
        match r {
            Ok(()) => route_resources_ok(input),
            Err(e) => route_resources_failure(input, e),
        },
{
    if !str_eq(input.route.kind(), "HTTPRoute") {
        return Err(GatewayHttpRouteManifestError::RouteKind { kind: string_of(input.route.kind()) });
    }
    if !str_eq(input.parent_gateway.kind(), "Gateway") {
        return Err(GatewayHttpRouteManifestError::ParentKind { kind: string_of(input.parent_gateway.kind()) });
    }
    if !str_eq(input.backend_service.kind(), "Service") {
        return Err(GatewayHttpRouteManifestError::BackendKind { kind: string_of(input.backend_service.kind()) });
    }
    if !str_eq(input.route.namespace(), input.backend_service.namespace()) {
        return Err(
            GatewayHttpRouteManifestError::BackendNamespace {
                route_namespace: string_of(input.route.namespace()),
                backend_namespace: string_of(input.backend_service.namespace()),
            },
        );
    }
    Ok(())
}

/// The labels a generated route carries, once every ownership label is present.
fn route_labels(labels: &[MetadataEntry]) -> (r: Result<Vec<MetadataEntry>, GatewayHttpRouteManifestError>)
    ensures
        match r {
            Ok(v) => first_absent_ownership(labels@) is None && last_per_key(v@, kept_labels(labels@)),
            Err(GatewayHttpRouteManifestError::MissingOwnershipLabel { key }) => first_absent_ownership(
                labels@,
            ) == Some(key@),
            Err(_) => false,
        },
{
    if let Some(key) = missing_ownership_label(labels) {
        return Err(GatewayHttpRouteManifestError::MissingOwnershipLabel { key });
    }
    let kept = sandbox_labels(labels);
    let merged = merge_copies(kept.as_slice());
    proof {
        lemma_last_per_key_views(merged@, kept@, kept_labels(labels@));
    }
    Ok(merged)
}

/// Generate a temporary Gateway API HTTPRoute manifest for sandbox traffic.
pub fn generate_gateway_http_route_manifest(input: GatewayHttpRouteManifestInput) -> (r: Result<
    GatewayHttpRouteManifest,
    GatewayHttpRouteManifestError,
>)
    ensures
        route_result(input, r),
{
    validate_gateway_http_route_manifest_input(input)?;
    let labels = route_labels(input.labels)?;
    let annotations = merge_copies(input.annotations);
    let parent_namespace = if str_eq(input.route.namespace(), input.parent_gateway.namespace()) {
        None
    } else {
        Some(string_of(input.parent_gateway.namespace()))
    };
    let mut hostnames: Vec<String> = Vec::new();
    let mut matches: Vec<GatewayHttpRouteMatch> = Vec::new();
    match input.selector {
        RouteSelector::Host { hostname } => {
            hostnames.push(hostname.clone());
            assert(views(hostnames@) =~= seq![hostname@]);
        },
        RouteSelector::Header { name, value } => {
            let header = GatewayHttpRouteHeaderMatch {
                match_type: "Exact",
                name: name.clone(),
                value: value.clone(),
            };
            matches.push(GatewayHttpRouteMatch { headers: vec![header] });
            assert(views(hostnames@) =~= Seq::<Seq<char>>::empty());
        },
    }
    let backend = GatewayHttpRouteBackendRef {
        kind: "Service",
        name: string_of(input.backend_service.name()),
        port: input.backend_port,
    };
    let parent = GatewayHttpRouteParentRef {
        kind: "Gateway",
        name: string_of(input.parent_gateway.name()),
        namespace: parent_namespace,
    };
    Ok(
        GatewayHttpRouteManifest {
            api_version: "gateway.networking.k8s.io/v1",
            kind: "HTTPRoute",
            metadata: GatewayHttpRouteMetadata {
                namespace: string_of(input.route.namespace()),
                name: string_of(input.route.name()),
                labels,
                annotations,
            },
            spec: GatewayHttpRouteSpec {
                parent_refs: vec![parent],
                hostnames,
                rules: vec![GatewayHttpRouteRule { matches, backend_refs: vec![backend] }],
            },
        },
    )
}

/// What the header-based generator gives: the capability error when header
/// routing is unavailable, whatever the input; then the selector kind error
/// for a host selector; otherwise what the plain generator gives.
pub open spec fn header_route_result(
    capabilities: GatewayRouteCapabilities,
    input: GatewayHttpRouteManifestInput,
    r: Result<GatewayHttpRouteManifest, GatewayHttpRouteManifestError>,
) -> bool {
    if !capabilities.supports_header_based_routing {
        r == Err::<GatewayHttpRouteManifest, _>(GatewayHttpRouteManifestError::HeaderRoutingUnavailable)
    } else if input.selector@ is Host {
        r matches Err(GatewayHttpRouteManifestError::HeaderSelectorRequired { kind }) && kind@ == "host"@
    } else {
        route_result(input, r)
    }
}

/// What the host-based generator gives: the capability error when host
/// routing is unavailable, whatever the input; then the selector kind error
/// for a header selector; otherwise what the plain generator gives.
pub open spec fn host_route_result(
    capabilities: GatewayRouteCapabilities,
    input: GatewayHttpRouteManifestInput,
    r: Result<GatewayHttpRouteManifest, GatewayHttpRouteManifestError>,
) -> bool {
    if !capabilities.supports_host_based_routing {
        r == Err::<GatewayHttpRouteManifest, _>(GatewayHttpRouteManifestError::HostRoutingUnavailable)
    } else if input.selector@ is Header {
        r matches Err(GatewayHttpRouteManifestError::HostSelectorRequired { kind }) && kind@ == "header"@
    } else {
        route_result(input, r)
    }
}

/// Generate a capability-gated header-based Gateway API HTTPRoute manifest:
/// the capabilities must allow header routing and the selector must match by
/// header.
pub fn generate_gateway_header_http_route_manifest(
    capabilities: &GatewayRouteCapabilities,
    input: GatewayHttpRouteManifestInput,
) -> (r: Result<GatewayHttpRouteManifest, GatewayHttpRouteManifestError>)
    ensures
        header_route_result(*capabilities, input, r),
{
    if !capabilities.supports_header_based_routing {
        return Err(GatewayHttpRouteManifestError::HeaderRoutingUnavailable);
    }
    if input.selector.header_parts().is_none() {
        return Err(GatewayHttpRouteManifestError::HeaderSelectorRequired { kind: string_of(input.selector.kind()) });
    }
    generate_gateway_http_route_manifest(input)
}

/// Generate a capability-gated host-based Gateway API HTTPRoute manifest: the
/// capabilities must allow host routing and the selector must match by host.
pub fn generate_gateway_host_http_route_manifest(
    capabilities: &GatewayRouteCapabilities,
    input: GatewayHttpRouteManifestInput,
) -> (r: Result<GatewayHttpRouteManifest, GatewayHttpRouteManifestError>)
    ensures
        host_route_result(*capabilities, input, r),
{
    if !capabilities.supports_host_based_routing {
        return Err(GatewayHttpRouteManifestError::HostRoutingUnavailable);
    }
    if input.selector.hostname().is_none() {
        return Err(GatewayHttpRouteManifestError::HostSelectorRequired { kind: string_of(input.selector.kind()) });
    }
    generate_gateway_http_route_manifest(input)
}

/// Whether a label selects routes for cleanup: the managing tool and the session.
pub open spec fn cleanup_label(key: Seq<char>) -> bool {
    key == "kply.dev/managed-by"@ || key == "kply.dev/session-id"@
}

/// The entries of `s` whose keys select routes for cleanup, in order.
pub open spec fn cleanup_kept(s: Seq<MetadataEntry>) -> Seq<MetadataEntry> {
    s.filter(|e: MetadataEntry| cleanup_label(e@.0))
}

/// Some entry of `r` is `e`.
pub open spec fn carries(r: Seq<MetadataEntry>, e: (Seq<char>, Seq<char>)) -> bool {
    exists|j: int| 0 <= j < r.len() && (#[trigger] r[j])@ == e
}

/// Cleanup finds the routes it is meant for: a route generated from planned
/// labels carries every label of the cleanup selector made from the same
/// labels, with the same value.
pub proof fn lemma_cleanup_selector_selects_route(
    labels: Seq<MetadataEntry>,
    route_labels: Seq<MetadataEntry>,
    selector: Seq<MetadataEntry>,
)
    requires
        last_per_key(route_labels, kept_labels(labels)),
        last_per_key(selector, cleanup_kept(labels)),
    ensures
        forall|i: int| 0 <= i < selector.len() ==> carries(route_labels, #[trigger] selector[i]@),
{
    let kept = kept_labels(labels);
    let ck = cleanup_kept(labels);
    let keep_label = |e: MetadataEntry| preserved_label(e@.0);
    let keep_cleanup = |e: MetadataEntry| cleanup_label(e@.0);
    assert(kept == labels.filter(keep_label));
    assert(ck == labels.filter(keep_cleanup));
    assert forall|i: int| 0 <= i < selector.len() implies carries(route_labels, #[trigger] selector[i]@) by {
        reveal(last_per_key);
        assert(has_source(selector, ck, i));
        let p = choose|p: int| kept_from(selector[i], ck, p);
        let k = ck[p]@.0;
        let v = ck[p]@.1;
        lemma_last_value_at(ck, p);
        labels.lemma_filter_pred(keep_cleanup, p);
        assert(cleanup_label(k));
        assert forall|e: MetadataEntry| e@.0 == k implies #[trigger] keep_cleanup(e) by {}
        assert forall|e: MetadataEntry| e@.0 == k implies #[trigger] keep_label(e) by {}
        lemma_filter_last_value(labels, keep_cleanup, k);
        lemma_filter_last_value(labels, keep_label, k);
        assert(last_value(kept, k) == Some(v));
        lemma_last_value_witness(kept, k);
        let q0 = choose|j: int| 0 <= j < kept.len() && (#[trigger] kept[j])@ == (k, v) && last_of_key(kept, j);
        assert(has_key(route_labels, kept, q0));
        let i2 = choose|i2: int| key_at(route_labels, i2, kept[q0]@.0);
        assert(has_source(route_labels, kept, i2));
        let q = choose|q: int| kept_from(route_labels[i2], kept, q);
        lemma_last_value_at(kept, q);
        assert(route_labels[i2]@ == (k, v));
        assert(selector[i]@ == (k, v));
    }
}

/// Copies of the labels that select routes for cleanup.
fn cleanup_labels(s: &[MetadataEntry]) -> (r: Vec<MetadataEntry>)
    ensures
        views(r@) == views(cleanup_kept(s@)),
{
    let mut out: Vec<MetadataEntry> = Vec::new();
    let n = s.len();
    for i in 0..n
        invariant
            n == s@.len(),
            views(out@) == views(cleanup_kept(s@.take(i as int))),
    {
        proof {
            reveal(Seq::filter);
            assert(s@.take(i + 1).drop_last() =~= s@.take(i as int));
        }
        if str_eq(s[i].key(), "kply.dev/managed-by") || str_eq(s[i].key(), "kply.dev/session-id") {
            let ghost before = out@;
            out.push(s[i].clone());
            assert(views(out@) =~= views(before).push(s@[i as int]@));
            assert(views(cleanup_kept(s@.take(i + 1))) =~= views(cleanup_kept(s@.take(i as int))).push(s@[i as int]@));
        } else {
            assert(cleanup_kept(s@.take(i + 1)) == cleanup_kept(s@.take(i as int)));
        }
    }
    assert(s@.take(n as int) =~= s@);
    out
}

/// What generating the cleanup selector for planned labels gives: the
/// selector keeping the last managing-tool and session labels, or the first
/// missing ownership label.
pub open spec fn selector_result(
    labels: Seq<MetadataEntry>,
    r: Result<GatewayRouteCleanupSelector, GatewayHttpRouteManifestError>,
) -> bool {
    match r {
        Ok(s) => first_absent_ownership(labels) is None && last_per_key(s.match_labels@, cleanup_kept(labels)),
        Err(GatewayHttpRouteManifestError::MissingOwnershipLabel { key }) => first_absent_ownership(labels)
            == Some(key@),
        Err(_) => false,
    }
}

/// Generate the minimal label selector required for Gateway API route
/// cleanup: every ownership label must be present, and the selector keeps the
/// managing-tool and session labels.
pub fn gateway_route_cleanup_selector(labels: &[MetadataEntry]) -> (r: Result<
    GatewayRouteCleanupSelector,
    GatewayHttpRouteManifestError,
>)
    ensures
        selector_result(labels@, r),
{
    if let Some(key) = missing_ownership_label(labels) {
        return Err(GatewayHttpRouteManifestError::MissingOwnershipLabel { key });
    }
    let kept = cleanup_labels(labels);
    let merged = merge_copies(kept.as_slice());
    proof {
        lemma_last_per_key_views(merged@, kept@, cleanup_kept(labels@));
    }
    Ok(GatewayRouteCleanupSelector { match_labels: merged })
}

/// What generating the cleanup target of a route gives: for a route that is
/// not an HTTPRoute, the route kind error, checked before the labels;
/// otherwise the target of that route holding the cleanup selector's result.
pub open spec fn cleanup_target_result(
    route: KubernetesResourceRef,
    labels: Seq<MetadataEntry>,
    r: Result<GatewayHttpRouteCleanupTarget, GatewayHttpRouteManifestError>,
) -> bool {
    if route@.1 != "HTTPRoute"@ {
        r matches Err(GatewayHttpRouteManifestError::RouteKind { kind }) && kind@ == route@.1
    } else {
        match r {
            Ok(t) => t.api_version@ == "gateway.networking.k8s.io/v1"@ && t.kind@ == "HTTPRoute"@
                && t.namespace@ == route@.0 && t.name@ == route@.2
                && selector_result(labels, Ok(t.selector)),
            Err(e) => selector_result(labels, Err(e)),
        }
    }
}

/// Generate a deterministic cleanup target for a temporary Gateway API HTTPRoute.
pub fn gateway_http_route_cleanup_target(route: &KubernetesResourceRef, labels: &[MetadataEntry]) -> (r: Result<
    GatewayHttpRouteCleanupTarget,
    GatewayHttpRouteManifestError,
>)
    ensures
        cleanup_target_result(*route, labels@, r),
{
    if !str_eq(route.kind(), "HTTPRoute") {
        return Err(GatewayHttpRouteManifestError::RouteKind { kind: string_of(route.kind()) });
    }
    let selector = gateway_route_cleanup_selector(labels)?;
    Ok(
        GatewayHttpRouteCleanupTarget {
            api_version: "gateway.networking.k8s.io/v1",
            kind: "HTTPRoute",
            namespace: string_of(route.namespace()),
            name: string_of(route.name()),
            selector,
        },
    )
}

/// Two route errors are the same error: the same variant with the same texts.
pub open spec fn same_route_error(a: GatewayHttpRouteManifestError, b: GatewayHttpRouteManifestError) -> bool {
    match (a, b) {
        (GatewayHttpRouteManifestError::RouteKind { kind: x }, GatewayHttpRouteManifestError::RouteKind { kind: y }) => x@ == y@,
        (GatewayHttpRouteManifestError::ParentKind { kind: x }, GatewayHttpRouteManifestError::ParentKind { kind: y }) => x@ == y@,
        (GatewayHttpRouteManifestError::BackendKind { kind: x }, GatewayHttpRouteManifestError::BackendKind { kind: y }) => x@ == y@,
        (
            GatewayHttpRouteManifestError::BackendNamespace { route_namespace: x1, backend_namespace: x2 },
            GatewayHttpRouteManifestError::BackendNamespace { route_namespace: y1, backend_namespace: y2 },
        ) => x1@ == y1@ && x2@ == y2@,
        (GatewayHttpRouteManifestError::HeaderRoutingUnavailable, GatewayHttpRouteManifestError::HeaderRoutingUnavailable) => true,
        (
            GatewayHttpRouteManifestError::HeaderSelectorRequired { kind: x },
            GatewayHttpRouteManifestError::HeaderSelectorRequired { kind: y },
        ) => x@ == y@,
        (GatewayHttpRouteManifestError::HostRoutingUnavailable, GatewayHttpRouteManifestError::HostRoutingUnavailable) => true,
        (
            GatewayHttpRouteManifestError::HostSelectorRequired { kind: x },
            GatewayHttpRouteManifestError::HostSelectorRequired { kind: y },
        ) => x@ == y@,
        (
            GatewayHttpRouteManifestError::MissingOwnershipLabel { key: x },
            GatewayHttpRouteManifestError::MissingOwnershipLabel { key: y },
        ) => x@ == y@,
        _ => false,
    }
}

/// Two cleanup selectors match the same labels, in the same order.
pub open spec fn same_selector(a: GatewayRouteCleanupSelector, b: GatewayRouteCleanupSelector) -> bool {
    views(a.match_labels@) == views(b.match_labels@)
}

/// Two cleanup selector results are the same selector or the same error.
pub open spec fn same_selector_result(
    a: Result<GatewayRouteCleanupSelector, GatewayHttpRouteManifestError>,
    b: Result<GatewayRouteCleanupSelector, GatewayHttpRouteManifestError>,
) -> bool {
    match (a, b) {
        (Ok(x), Ok(y)) => same_selector(x, y),
        (Err(x), Err(y)) => same_route_error(x, y),
        _ => false,
    }
}

/// The cleanup selector is determined by the planned labels: any two
/// results for the same labels are the same selector or the same error.
pub proof fn lemma_selector_result_unique(
    labels: Seq<MetadataEntry>,
    a: Result<GatewayRouteCleanupSelector, GatewayHttpRouteManifestError>,
    b: Result<GatewayRouteCleanupSelector, GatewayHttpRouteManifestError>,
)
    requires
        selector_result(labels, a),
        selector_result(labels, b),
    ensures
        same_selector_result(a, b),
{
    if let (Ok(x), Ok(y)) = (a, b) {
        lemma_last_per_key_unique(x.match_labels@, y.match_labels@, cleanup_kept(labels));
    }
}

/// The cleanup target of an HTTPRoute holds exactly what the cleanup
/// selector gives for the same labels: the same selector, or its error.
pub proof fn lemma_cleanup_target_holds_selector(
    route: KubernetesResourceRef,
    labels: Seq<MetadataEntry>,
    t: Result<GatewayHttpRouteCleanupTarget, GatewayHttpRouteManifestError>,
    s: Result<GatewayRouteCleanupSelector, GatewayHttpRouteManifestError>,
)
    requires
        route@.1 == "HTTPRoute"@,
        cleanup_target_result(route, labels, t),
        selector_result(labels, s),
    ensures
        match (t, s) {
            (Ok(x), Ok(y)) => same_selector(x.selector, y),
            (Err(x), Err(y)) => same_route_error(x, y),
            _ => false,
        },
{
    match t {
        Ok(x) => lemma_selector_result_unique(labels, Ok(x.selector), s),
        Err(e) => lemma_selector_result_unique(labels, Err(e), s),
    }
}

/// Two lists of parent references hold the same references in order.
pub open spec fn same_parent_refs(a: Seq<GatewayHttpRouteParentRef>, b: Seq<GatewayHttpRouteParentRef>) -> bool {
    &&& a.len() == b.len()
    &&& forall|i: int| 0 <= i < a.len() ==> {
        &&& (#[trigger] a[i]).kind@ == b[i].kind@
        &&& a[i].name@ == b[i].name@
        &&& opt_view(a[i].namespace) == opt_view(b[i].namespace)
    }
}

/// Two lists of header matches hold the same matches in order.
pub open spec fn same_headers(a: Seq<GatewayHttpRouteHeaderMatch>, b: Seq<GatewayHttpRouteHeaderMatch>) -> bool {
    &&& a.len() == b.len()
    &&& forall|i: int| 0 <= i < a.len() ==> {
        &&& (#[trigger] a[i]).match_type@ == b[i].match_type@
        &&& a[i].name@ == b[i].name@
        &&& a[i].value@ == b[i].value@
    }
}

/// Two lists of route matches hold the same matches in order.
pub open spec fn same_matches(a: Seq<GatewayHttpRouteMatch>, b: Seq<GatewayHttpRouteMatch>) -> bool {
    &&& a.len() == b.len()
    &&& forall|i: int| 0 <= i < a.len() ==> same_headers((#[trigger] a[i]).headers@, b[i].headers@)
}

/// Two lists of backend references hold the same references in order.
pub open spec fn same_backends(a: Seq<GatewayHttpRouteBackendRef>, b: Seq<GatewayHttpRouteBackendRef>) -> bool {
    &&& a.len() == b.len()
    &&& forall|i: int| 0 <= i < a.len() ==> {
        &&& (#[trigger] a[i]).kind@ == b[i].kind@
        &&& a[i].name@ == b[i].name@
        &&& a[i].port == b[i].port
    }
}

/// Two lists of rules hold the same rules in order.
pub open spec fn same_rules(a: Seq<GatewayHttpRouteRule>, b: Seq<GatewayHttpRouteRule>) -> bool {
    &&& a.len() == b.len()
    &&& forall|i: int| 0 <= i < a.len() ==> {
        &&& same_matches((#[trigger] a[i]).matches@, b[i].matches@)
        &&& same_backends(a[i].backend_refs@, b[i].backend_refs@)
    }
}

/// Two HTTPRoute manifests say the same: every field holds the same text,
/// number, or list, in the same order.
pub open spec fn same_route_manifest(a: GatewayHttpRouteManifest, b: GatewayHttpRouteManifest) -> bool {
    &&& a.api_version@ == b.api_version@
    &&& a.kind@ == b.kind@
    &&& a.metadata.namespace@ == b.metadata.namespace@
    &&& a.metadata.name@ == b.metadata.name@
    &&& views(a.metadata.labels@) == views(b.metadata.labels@)
    &&& views(a.metadata.annotations@) == views(b.metadata.annotations@)
    &&& same_parent_refs(a.spec.parent_refs@, b.spec.parent_refs@)
    &&& views(a.spec.hostnames@) == views(b.spec.hostnames@)
    &&& same_rules(a.spec.rules@, b.spec.rules@)
}

/// Two route results are the same manifest or the same error.
pub open spec fn same_route_result(
    a: Result<GatewayHttpRouteManifest, GatewayHttpRouteManifestError>,
    b: Result<GatewayHttpRouteManifest, GatewayHttpRouteManifestError>,
) -> bool {
    match (a, b) {
        (Ok(x), Ok(y)) => same_route_manifest(x, y),
        (Err(x), Err(y)) => same_route_error(x, y),
        _ => false,
    }
}

/// Two manifests generated for the same input say the same.
proof fn lemma_route_manifest_unique(input: GatewayHttpRouteManifestInput, a: GatewayHttpRouteManifest, b: GatewayHttpRouteManifest)
    requires
        route_manifest_of(input, a),
        route_manifest_of(input, b),
    ensures
        same_route_manifest(a, b),
{
    lemma_last_per_key_unique(a.metadata.labels@, b.metadata.labels@, kept_labels(input.labels@));
    lemma_last_per_key_unique(a.metadata.annotations@, b.metadata.annotations@, input.annotations@);
    let ra = a.spec.rules@[0];
    let rb = b.spec.rules@[0];
    assert(same_backends(ra.backend_refs@, rb.backend_refs@));
    match input.selector@ {
        SelectorModel::Header { .. } => {
            assert(same_headers(ra.matches@[0].headers@, rb.matches@[0].headers@));
        },
        SelectorModel::Host { .. } => {},
    }
    assert(same_matches(ra.matches@, rb.matches@));
    assert(same_rules(a.spec.rules@, b.spec.rules@));
    assert(same_parent_refs(a.spec.parent_refs@, b.spec.parent_refs@));
}

/// The HTTPRoute manifest is determined by its input: any two results for the
/// same input are the same manifest or the same error.
pub proof fn lemma_route_result_unique(
    input: GatewayHttpRouteManifestInput,
    a: Result<GatewayHttpRouteManifest, GatewayHttpRouteManifestError>,
    b: Result<GatewayHttpRouteManifest, GatewayHttpRouteManifestError>,
)
    requires
        route_result(input, a),
        route_result(input, b),
    ensures
        same_route_result(a, b),
{
    if let (Ok(x), Ok(y)) = (a, b) {
        lemma_route_manifest_unique(input, x, y);
    }
}

/// With header routing supported and a header selector, the header-based
/// generator gives what the plain generator gives for the same input.
pub proof fn lemma_header_route_is_plain_route(
    capabilities: GatewayRouteCapabilities,
    input: GatewayHttpRouteManifestInput,
    a: Result<GatewayHttpRouteManifest, GatewayHttpRouteManifestError>,
    b: Result<GatewayHttpRouteManifest, GatewayHttpRouteManifestError>,
)
    requires
        capabilities.supports_header_based_routing,
        input.selector@ is Header,
        header_route_result(capabilities, input, a),
        route_result(input, b),
    ensures
        same_route_result(a, b),
{
    lemma_route_result_unique(input, a, b);
}

/// With host routing supported and a host selector, the host-based generator
/// gives what the plain generator gives for the same input.
pub proof fn lemma_host_route_is_plain_route(
    capabilities: GatewayRouteCapabilities,
    input: GatewayHttpRouteManifestInput,
    a: Result<GatewayHttpRouteManifest, GatewayHttpRouteManifestError>,
    b: Result<GatewayHttpRouteManifest, GatewayHttpRouteManifestError>,
)
    requires
        capabilities.supports_host_based_routing,
        input.selector@ is Host,
        host_route_result(capabilities, input, a),
        route_result(input, b),
    ensures
        same_route_result(a, b),
{
    lemma_route_result_unique(input, a, b);
}

/// What the inventory status means for what discovery found: unavailable
/// exactly when none of the GatewayClass, Gateway and HTTPRoute APIs answered;
/// available, which is what lets temporary HTTPRoutes be planned, exactly when
/// all three answered and at least one GatewayClass and one Gateway were
/// found; partial in every other case.
pub proof fn lemma_inventory_status_meaning(input: GatewayApiDiscoveryInput, d: GatewayApiResourceDetection)
    requires
        detection_of(input, d),
    ensures
        d.status == GatewayApiResourceStatus::Unavailable <==> (input.gateway_classes is None
            && input.gateways is None && input.http_routes is None),
        d.status == GatewayApiResourceStatus::Available <==> ({
            &&& input.gateway_classes matches Some(c) && c@.len() > 0
            &&& input.gateways matches Some(g) && g@.len() > 0
            &&& input.http_routes is Some
        }),
        d.status == GatewayApiResourceStatus::Available ==> d.gateway_class_count > 0
            && d.gateway_count > 0 && d.http_route_api_detected,
{
}

} // verus!
