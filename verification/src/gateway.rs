//! Summaries of Gateway API resources, read from their JSON documents.

use vstd::prelude::*;
use crate::json::{
    JsonValue, field, text_of, integer_of, items_of, texts_of, text_field,
    integer_field, array_field, texts_in,
};
use crate::k8s::{
    opt_chars, GatewayClassSummary, GatewaySummary, GatewayListenerSummary, HttpRouteSummary,
    RouteParentRefSummary, HttpRouteRuleSummary, HttpRouteBackendRefSummary,
};

verus! {

/// A Kubernetes object of a kind the cluster's API does not fix in advance:
/// its namespace, its name and the rest of its document.
#[derive(Debug, PartialEq, Eq)]
pub struct DynamicResource {
    /// Namespace, for namespaced objects.
    pub namespace: Option<String>,
    /// Object name.
    pub name: String,
    /// The document's fields besides its metadata.
    pub data: JsonValue,
}

/// The text of member `key` of `v`.
pub open spec fn text_at(v: Option<JsonValue>, key: Seq<char>) -> Option<Seq<char>> {
    text_of(field(v, key))
}

/// The integer of member `key` of `v`.
pub open spec fn integer_at(v: Option<JsonValue>, key: Seq<char>) -> Option<i64> {
    integer_of(field(v, key))
}

/// The items of member `key` of `v`.
pub open spec fn items_at(v: Option<JsonValue>, key: Seq<char>) -> Seq<JsonValue> {
    items_of(field(v, key))
}

/// The `spec` member of a resource's document.
pub open spec fn spec_of(r: DynamicResource) -> Option<JsonValue> {
    field(Some(r.data), "spec"@)
}

/// A namespace, or the empty text.
pub open spec fn namespace_or_empty(n: Option<String>) -> Seq<char> {
    match n {
        Some(s) => s@,
        None => Seq::empty(),
    }
}

/// `l` describes the listener document `v`.
pub open spec fn describes_listener(l: GatewayListenerSummary, v: JsonValue) -> bool {
    &&& opt_chars(l.name) == text_at(Some(v), "name"@)
    &&& opt_chars(l.hostname) == text_at(Some(v), "hostname"@)
    &&& l.port == integer_at(Some(v), "port"@)
    &&& opt_chars(l.protocol) == text_at(Some(v), "protocol"@)
}

/// `p` describes the parent reference document `v`.
pub open spec fn describes_parent_ref(p: RouteParentRefSummary, v: JsonValue) -> bool {
    &&& opt_chars(p.kind) == text_at(Some(v), "kind"@)
    &&& opt_chars(p.namespace) == text_at(Some(v), "namespace"@)
    &&& opt_chars(p.name) == text_at(Some(v), "name"@)
    &&& opt_chars(p.section_name) == text_at(Some(v), "sectionName"@)
}

/// `b` describes the backend reference document `v`.
pub open spec fn describes_backend_ref(b: HttpRouteBackendRefSummary, v: JsonValue) -> bool {
    &&& opt_chars(b.kind) == text_at(Some(v), "kind"@)
    &&& opt_chars(b.namespace) == text_at(Some(v), "namespace"@)
    &&& opt_chars(b.name) == text_at(Some(v), "name"@)
    &&& b.port == integer_at(Some(v), "port"@)
}

/// `r` describes the rule document `v`: one backend summary per item of its
/// `backendRefs`, in order.
pub open spec fn describes_rule(r: HttpRouteRuleSummary, v: JsonValue) -> bool {
    let refs = items_at(Some(v), "backendRefs"@);
    &&& r.backend_refs@.len() == refs.len()
    &&& forall|i: int| 0 <= i < refs.len()
        ==> #[trigger] describes_backend_ref(r.backend_refs@[i], refs[i])
}

/// Summarize a GatewayClass: its name, and the controller name and
/// description of its spec.
pub fn gateway_class_summary(gateway_class: &DynamicResource) -> (r: GatewayClassSummary)
    ensures
        r.name@ == gateway_class.name@,
        opt_chars(r.controller_name) == text_at(spec_of(*gateway_class), "controllerName"@),
        opt_chars(r.description) == text_at(spec_of(*gateway_class), "description"@),
{
    let spec = crate::json::get_field(Some(&gateway_class.data), "spec");
    GatewayClassSummary {
        name: gateway_class.name.clone(),
        controller_name: text_field(spec, "controllerName"),
        description: text_field(spec, "description"),
    }
}

/// Summarize one listener of a Gateway.
fn listener_summary(listener: &JsonValue) -> (r: GatewayListenerSummary)
    ensures
        describes_listener(r, *listener),
{
    GatewayListenerSummary {
        name: text_field(Some(listener), "name"),
        hostname: text_field(Some(listener), "hostname"),
        port: integer_field(Some(listener), "port"),
        protocol: text_field(Some(listener), "protocol"),
    }
}

/// Summarize a Gateway: namespace, name, class and each listener of its
/// spec in order.
pub fn gateway_summary(gateway: &DynamicResource) -> (r: GatewaySummary)
    ensures
        r.namespace@ == namespace_or_empty(gateway.namespace),
        r.name@ == gateway.name@,
        opt_chars(r.gateway_class_name) == text_at(spec_of(*gateway), "gatewayClassName"@),
        r.listeners@.len() == items_at(spec_of(*gateway), "listeners"@).len(),
        forall|i: int| 0 <= i < r.listeners@.len()
            ==> #[trigger] describes_listener(r.listeners@[i], items_at(spec_of(*gateway), "listeners"@)[i]),
{
    let spec = crate::json::get_field(Some(&gateway.data), "spec");
    let items = array_field(spec, "listeners");
    let mut listeners: Vec<GatewayListenerSummary> = Vec::new();
    let n = items.len();
    for i in 0..n
        invariant
            n == items@.len(),
            listeners@.len() == i,
            forall|j: int| 0 <= j < i ==> #[trigger] describes_listener(listeners@[j], items@[j]),
    {
        listeners.push(listener_summary(&items[i]));
    }
    let namespace = match &gateway.namespace {
        Some(n) => n.clone(),
        None => String::new(),
    };
    GatewaySummary {
        namespace,
        name: gateway.name.clone(),
        gateway_class_name: text_field(spec, "gatewayClassName"),
        listeners,
    }
}

/// Summarize one parent reference of an HTTPRoute.
fn parent_ref_summary(parent_ref: &JsonValue) -> (r: RouteParentRefSummary)
    ensures
        describes_parent_ref(r, *parent_ref),
{
    RouteParentRefSummary {
        kind: text_field(Some(parent_ref), "kind"),
        namespace: text_field(Some(parent_ref), "namespace"),
        name: text_field(Some(parent_ref), "name"),
        section_name: text_field(Some(parent_ref), "sectionName"),
    }
}

/// Summarize one backend reference of an HTTPRoute rule.
fn backend_ref_summary(backend_ref: &JsonValue) -> (r: HttpRouteBackendRefSummary)
    ensures
        describes_backend_ref(r, *backend_ref),
{
    HttpRouteBackendRefSummary {
        kind: text_field(Some(backend_ref), "kind"),
        namespace: text_field(Some(backend_ref), "namespace"),
        name: text_field(Some(backend_ref), "name"),
        port: integer_field(Some(backend_ref), "port"),
    }
}

/// Summarize one rule of an HTTPRoute: its backend references in order.
fn rule_summary(rule: &JsonValue) -> (r: HttpRouteRuleSummary)
    ensures
        describes_rule(r, *rule),
{
    let items = array_field(Some(rule), "backendRefs");
    let mut backend_refs: Vec<HttpRouteBackendRefSummary> = Vec::new();
    let n = items.len();
    for i in 0..n
        invariant
            n == items@.len(),
            backend_refs@.len() == i,
            forall|j: int| 0 <= j < i ==> #[trigger] describes_backend_ref(backend_refs@[j], items@[j]),
    {
        backend_refs.push(backend_ref_summary(&items[i]));
    }
    HttpRouteRuleSummary { backend_refs }
}

/// Summarize an HTTPRoute: namespace, name, the string hostnames of its spec,
/// and each parent reference and rule in order.
pub fn http_route_summary(route: &DynamicResource) -> (r: HttpRouteSummary)
    ensures
        r.namespace@ == namespace_or_empty(route.namespace),
        r.name@ == route.name@,
        crate::order::views(r.hostnames@) == texts_of(items_at(spec_of(*route), "hostnames"@)),
        r.parent_refs@.len() == items_at(spec_of(*route), "parentRefs"@).len(),
        forall|i: int| 0 <= i < r.parent_refs@.len()
            ==> #[trigger] describes_parent_ref(r.parent_refs@[i], items_at(spec_of(*route), "parentRefs"@)[i]),
        r.rules@.len() == items_at(spec_of(*route), "rules"@).len(),
        forall|i: int| 0 <= i < r.rules@.len()
            ==> #[trigger] describes_rule(r.rules@[i], items_at(spec_of(*route), "rules"@)[i]),
{
    let spec = crate::json::get_field(Some(&route.data), "spec");
    let hostnames = texts_in(array_field(spec, "hostnames"));
    let parent_items = array_field(spec, "parentRefs");
    let mut parent_refs: Vec<RouteParentRefSummary> = Vec::new();
    let n = parent_items.len();
    for i in 0..n
        invariant
            n == parent_items@.len(),
            parent_refs@.len() == i,
            forall|j: int| 0 <= j < i ==> #[trigger] describes_parent_ref(parent_refs@[j], parent_items@[j]),
    {
        parent_refs.push(parent_ref_summary(&parent_items[i]));
    }
    let rule_items = array_field(spec, "rules");
    let mut rules: Vec<HttpRouteRuleSummary> = Vec::new();
    let m = rule_items.len();
    for i in 0..m
        invariant
            m == rule_items@.len(),
            rules@.len() == i,
            forall|j: int| 0 <= j < i ==> #[trigger] describes_rule(rules@[j], rule_items@[j]),
    {
        rules.push(rule_summary(&rule_items[i]));
    }
    let namespace = match &route.namespace {
        Some(n) => n.clone(),
        None => String::new(),
    };
    HttpRouteSummary { namespace, name: route.name.clone(), hostnames, parent_refs, rules }
}

} // verus!
