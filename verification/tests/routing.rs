use kply::ids::KubernetesResourceRef;
use kply::k8s::{GatewayClassSummary, GatewayListenerSummary, GatewaySummary, HttpRouteSummary};
use kply::metadata::MetadataEntry;
use kply::routing::{
    detect_gateway_api_resources, gateway_http_route_cleanup_target,
    gateway_route_cleanup_selector, generate_gateway_header_http_route_manifest,
    generate_gateway_host_http_route_manifest, generate_gateway_http_route_manifest,
    model_gateway_route_capabilities, qualified_resource_name, GatewayApiDiscoveryInput,
    GatewayApiResourceDetection, GatewayApiResourceStatus, GatewayHttpRouteManifestError,
    GatewayHttpRouteManifestInput, GatewayRouteCapabilities, GatewayRouteCapabilityLimitation,
    GatewayRouteCapabilityStatus,
};
use kply::values::RouteSelector;

fn pairs(entries: &[MetadataEntry]) -> Vec<(&str, &str)> {
    entries.iter().map(|entry| (entry.key(), entry.value())).collect()
}

#[test]
fn detects_unavailable_gateway_api_resources() {
    let detection = detect_gateway_api_resources(GatewayApiDiscoveryInput {
        gateway_classes: None,
        gateways: None,
        http_routes: None,
    });

    assert_eq!(
        detection,
        GatewayApiResourceDetection {
            status: GatewayApiResourceStatus::Unavailable,
            gateway_class_api_detected: false,
            gateway_api_detected: false,
            http_route_api_detected: false,
            gateway_class_count: 0,
            gateway_count: 0,
            http_route_count: 0,
            controller_names: Vec::new(),
            gateway_class_names: Vec::new(),
            gateway_names: Vec::new(),
            http_route_names: Vec::new(),
        }
    );
    assert!(!detection.supports_temporary_http_routes());
    assert_eq!(detection.status.as_str(), "unavailable");
}

#[test]
fn detects_partial_gateway_api_resources() {
    let gateway_classes = vec![gateway_class("istio", Some("istio.io/gateway-controller"))];

    let detection = detect_gateway_api_resources(GatewayApiDiscoveryInput {
        gateway_classes: Some(&gateway_classes),
        gateways: None,
        http_routes: None,
    });

    assert_eq!(detection.status, GatewayApiResourceStatus::Partial);
    assert!(detection.gateway_class_api_detected);
    assert!(!detection.gateway_api_detected);
    assert!(!detection.http_route_api_detected);
    assert!(!detection.supports_temporary_http_routes());
    assert_eq!(detection.gateway_class_names, ["istio"]);
    assert_eq!(detection.controller_names, ["istio.io/gateway-controller"]);
}

#[test]
fn detects_partial_gateway_api_resources_without_gateway_classes() {
    let gateway_classes: Vec<GatewayClassSummary> = Vec::new();
    let gateways = vec![gateway("shop", "public", "istio")];
    let http_routes: Vec<HttpRouteSummary> = Vec::new();

    let detection = detect_gateway_api_resources(GatewayApiDiscoveryInput {
        gateway_classes: Some(&gateway_classes),
        gateways: Some(&gateways),
        http_routes: Some(&http_routes),
    });

    assert_eq!(detection.status, GatewayApiResourceStatus::Partial);
    assert!(detection.gateway_class_api_detected);
    assert!(detection.gateway_api_detected);
    assert!(detection.http_route_api_detected);
    assert!(!detection.supports_temporary_http_routes());
}

#[test]
fn detects_available_gateway_api_resources() {
    let gateway_classes = vec![
        gateway_class("istio", Some("istio.io/gateway-controller")),
        gateway_class(
            "envoy",
            Some("gateway.envoyproxy.io/gatewayclass-controller"),
        ),
        gateway_class("istio", Some("istio.io/gateway-controller")),
    ];
    let gateways = vec![
        gateway("shop", "public", "istio"),
        gateway("platform", "internal", "envoy"),
    ];
    let http_routes: Vec<HttpRouteSummary> = Vec::new();

    let detection = detect_gateway_api_resources(GatewayApiDiscoveryInput {
        gateway_classes: Some(&gateway_classes),
        gateways: Some(&gateways),
        http_routes: Some(&http_routes),
    });

    assert_eq!(detection.status, GatewayApiResourceStatus::Available);
    assert!(detection.gateway_class_api_detected);
    assert!(detection.gateway_api_detected);
    assert!(detection.http_route_api_detected);
    assert!(detection.supports_temporary_http_routes());
    assert_eq!(
        detection.controller_names,
        [
            "gateway.envoyproxy.io/gatewayclass-controller",
            "istio.io/gateway-controller"
        ]
    );
    assert_eq!(detection.gateway_class_names, ["envoy", "istio"]);
    assert_eq!(
        detection.gateway_names,
        ["platform/internal", "shop/public"]
    );
    assert_eq!(detection.http_route_names, Vec::<String>::new());
}

#[test]
fn models_unavailable_gateway_route_capabilities() {
    let capabilities = model_gateway_route_capabilities(GatewayApiDiscoveryInput {
        gateway_classes: None,
        gateways: None,
        http_routes: None,
    });

    assert_eq!(
        capabilities,
        GatewayRouteCapabilities {
            resources: GatewayApiResourceDetection {
                status: GatewayApiResourceStatus::Unavailable,
                gateway_class_api_detected: false,
                gateway_api_detected: false,
                http_route_api_detected: false,
                gateway_class_count: 0,
                gateway_count: 0,
                http_route_count: 0,
                controller_names: Vec::new(),
                gateway_class_names: Vec::new(),
                gateway_names: Vec::new(),
                http_route_names: Vec::new(),
            },
            status: GatewayRouteCapabilityStatus::Unsupported,
            supports_temporary_http_routes: false,
            supports_header_based_routing: false,
            supports_host_based_routing: false,
            http_compatible_gateway_names: Vec::new(),
            listener_protocols: Vec::new(),
            limitations: vec![
                GatewayRouteCapabilityLimitation::GatewayApiUnavailable,
                GatewayRouteCapabilityLimitation::MissingGatewayClass,
                GatewayRouteCapabilityLimitation::MissingGateway,
                GatewayRouteCapabilityLimitation::MissingHttpRouteApi,
            ],
        }
    );
    assert_eq!(capabilities.status.as_str(), "unsupported");
    assert_eq!(
        capabilities.limitations[0].as_str(),
        "gateway_api_unavailable"
    );
}

#[test]
fn models_partial_gateway_route_capabilities_without_http_listeners() {
    let gateway_classes = vec![gateway_class("mesh", Some("example.com/controller"))];
    let gateways = vec![gateway_with_protocol("shop", "mesh", "mesh", Some("TCP"))];
    let http_routes: Vec<HttpRouteSummary> = Vec::new();

    let capabilities = model_gateway_route_capabilities(GatewayApiDiscoveryInput {
        gateway_classes: Some(&gateway_classes),
        gateways: Some(&gateways),
        http_routes: Some(&http_routes),
    });

    assert_eq!(capabilities.status, GatewayRouteCapabilityStatus::Partial);
    assert!(!capabilities.supports_temporary_http_routes);
    assert!(!capabilities.supports_header_based_routing);
    assert!(!capabilities.supports_host_based_routing);
    assert_eq!(capabilities.listener_protocols, ["TCP"]);
    assert_eq!(
        capabilities.http_compatible_gateway_names,
        Vec::<String>::new()
    );
    assert_eq!(
        capabilities.limitations,
        [GatewayRouteCapabilityLimitation::NoHttpCompatibleListener]
    );
}

#[test]
fn models_supported_gateway_route_capabilities() {
    let gateway_classes = vec![gateway_class("istio", Some("istio.io/gateway-controller"))];
    let gateways = vec![
        gateway_with_protocol("shop", "public", "istio", Some("HTTP")),
        gateway_with_protocol("shop", "secure", "istio", Some("HTTPS")),
        gateway_with_protocol("shop", "tcp", "istio", Some("TCP")),
    ];
    let http_routes: Vec<HttpRouteSummary> = Vec::new();

    let capabilities = model_gateway_route_capabilities(GatewayApiDiscoveryInput {
        gateway_classes: Some(&gateway_classes),
        gateways: Some(&gateways),
        http_routes: Some(&http_routes),
    });

    assert_eq!(capabilities.status, GatewayRouteCapabilityStatus::Supported);
    assert!(capabilities.supports_temporary_http_routes);
    assert!(capabilities.supports_header_based_routing);
    assert!(capabilities.supports_host_based_routing);
    assert_eq!(capabilities.listener_protocols, ["HTTP", "HTTPS", "TCP"]);
    assert_eq!(
        capabilities.http_compatible_gateway_names,
        ["shop/public", "shop/secure"]
    );
    assert_eq!(capabilities.limitations, Vec::new());
}

#[test]
fn generates_header_based_gateway_http_route_manifest() {
    let route = resource("shop", "HTTPRoute", "checkout-kply");
    let gateway = resource("shop", "Gateway", "public");
    let service = resource("shop", "Service", "checkout-sandbox");
    let selector = RouteSelector::header("x-kply-session", "session-123").unwrap();
    let labels = ownership_labels();
    let annotations = vec![MetadataEntry::new("kply.dev/route-strategy", "gateway-api").unwrap()];

    let manifest = generate_gateway_http_route_manifest(GatewayHttpRouteManifestInput {
        route: &route,
        parent_gateway: &gateway,
        backend_service: &service,
        backend_port: 8080,
        selector: &selector,
        labels: &labels,
        annotations: &annotations,
    })
    .unwrap();

    assert_eq!(manifest.api_version, "gateway.networking.k8s.io/v1");
    assert_eq!(manifest.kind, "HTTPRoute");
    assert_eq!(manifest.metadata.namespace, "shop");
    assert_eq!(manifest.metadata.name, "checkout-kply");
    assert_eq!(
        pairs(&manifest.metadata.labels),
        vec![
            ("kply.dev/app", "checkout"),
            ("kply.dev/managed-by", "kply"),
            ("kply.dev/session-id", "session-123"),
            ("kply.dev/session-name", "checkout-test"),
        ]
    );
    assert_eq!(
        pairs(&manifest.metadata.annotations),
        vec![("kply.dev/route-strategy", "gateway-api")]
    );
    assert_eq!(manifest.spec.parent_refs.len(), 1);
    assert_eq!(manifest.spec.parent_refs[0].kind, "Gateway");
    assert_eq!(manifest.spec.parent_refs[0].name, "public");
    assert_eq!(manifest.spec.parent_refs[0].namespace, None);
    assert!(manifest.spec.hostnames.is_empty());
    assert_eq!(manifest.spec.rules.len(), 1);
    let rule = &manifest.spec.rules[0];
    assert_eq!(rule.matches.len(), 1);
    assert_eq!(rule.matches[0].headers.len(), 1);
    assert_eq!(rule.matches[0].headers[0].match_type, "Exact");
    assert_eq!(rule.matches[0].headers[0].name, "x-kply-session");
    assert_eq!(rule.matches[0].headers[0].value, "session-123");
    assert_eq!(rule.backend_refs.len(), 1);
    assert_eq!(rule.backend_refs[0].kind, "Service");
    assert_eq!(rule.backend_refs[0].name, "checkout-sandbox");
    assert_eq!(rule.backend_refs[0].port, 8080);
}

#[test]
fn generates_capability_gated_header_gateway_http_route_manifest() {
    let capabilities = supported_gateway_capabilities();
    let route = resource("shop", "HTTPRoute", "checkout-kply");
    let gateway = resource("shop", "Gateway", "public");
    let service = resource("shop", "Service", "checkout-sandbox");
    let selector = RouteSelector::header("x-kply-session", "session-123").unwrap();
    let labels = ownership_labels();

    let manifest = generate_gateway_header_http_route_manifest(
        &capabilities,
        GatewayHttpRouteManifestInput {
            route: &route,
            parent_gateway: &gateway,
            backend_service: &service,
            backend_port: 8080,
            selector: &selector,
            labels: &labels,
            annotations: &[],
        },
    )
    .unwrap();

    assert_eq!(manifest.kind, "HTTPRoute");
    assert_eq!(
        manifest.spec.rules[0].matches[0].headers[0].name,
        "x-kply-session"
    );
}

#[test]
fn rejects_header_gateway_http_route_manifest_without_capability_support() {
    let capabilities = model_gateway_route_capabilities(GatewayApiDiscoveryInput {
        gateway_classes: None,
        gateways: None,
        http_routes: None,
    });
    let route = resource("shop", "HTTPRoute", "checkout-kply");
    let gateway = resource("shop", "Gateway", "public");
    let service = resource("shop", "Service", "checkout-sandbox");
    let selector = RouteSelector::header("x-kply-session", "session-123").unwrap();

    let error = generate_gateway_header_http_route_manifest(
        &capabilities,
        GatewayHttpRouteManifestInput {
            route: &route,
            parent_gateway: &gateway,
            backend_service: &service,
            backend_port: 8080,
            selector: &selector,
            labels: &[],
            annotations: &[],
        },
    )
    .unwrap_err();

    assert_eq!(
        error,
        GatewayHttpRouteManifestError::HeaderRoutingUnavailable
    );
    assert_eq!(
        error.to_string(),
        "Gateway capabilities do not support header-based routing"
    );
}

#[test]
fn rejects_host_selector_for_header_gateway_http_route_manifest() {
    let capabilities = supported_gateway_capabilities();
    let route = resource("shop", "HTTPRoute", "checkout-kply");
    let gateway = resource("shop", "Gateway", "public");
    let service = resource("shop", "Service", "checkout-sandbox");
    let selector = RouteSelector::host("checkout-preview.example.com").unwrap();

    let error = generate_gateway_header_http_route_manifest(
        &capabilities,
        GatewayHttpRouteManifestInput {
            route: &route,
            parent_gateway: &gateway,
            backend_service: &service,
            backend_port: 8080,
            selector: &selector,
            labels: &[],
            annotations: &[],
        },
    )
    .unwrap_err();

    assert_eq!(
        error,
        GatewayHttpRouteManifestError::HeaderSelectorRequired {
            kind: "host".to_owned()
        }
    );
    assert_eq!(
        error.to_string(),
        "expected header route selector, found host"
    );
}

#[test]
fn generates_host_based_gateway_http_route_manifest() {
    let route = resource("shop", "HTTPRoute", "checkout-preview");
    let gateway = resource("platform", "Gateway", "edge");
    let service = resource("shop", "Service", "checkout-sandbox");
    let selector = RouteSelector::host("checkout-preview.example.com").unwrap();
    let labels = ownership_labels();

    let manifest = generate_gateway_http_route_manifest(GatewayHttpRouteManifestInput {
        route: &route,
        parent_gateway: &gateway,
        backend_service: &service,
        backend_port: 80,
        selector: &selector,
        labels: &labels,
        annotations: &[],
    })
    .unwrap();

    assert_eq!(manifest.api_version, "gateway.networking.k8s.io/v1");
    assert_eq!(manifest.kind, "HTTPRoute");
    assert_eq!(manifest.metadata.namespace, "shop");
    assert_eq!(manifest.metadata.name, "checkout-preview");
    assert_eq!(
        pairs(&manifest.metadata.labels),
        vec![
            ("kply.dev/app", "checkout"),
            ("kply.dev/managed-by", "kply"),
            ("kply.dev/session-id", "session-123"),
            ("kply.dev/session-name", "checkout-test"),
        ]
    );
    assert!(manifest.metadata.annotations.is_empty());
    assert_eq!(manifest.spec.parent_refs.len(), 1);
    assert_eq!(manifest.spec.parent_refs[0].kind, "Gateway");
    assert_eq!(manifest.spec.parent_refs[0].name, "edge");
    assert_eq!(
        manifest.spec.parent_refs[0].namespace,
        Some("platform".to_owned())
    );
    assert_eq!(manifest.spec.hostnames, ["checkout-preview.example.com"]);
    assert_eq!(manifest.spec.rules.len(), 1);
    let rule = &manifest.spec.rules[0];
    assert!(rule.matches.is_empty());
    assert_eq!(rule.backend_refs.len(), 1);
    assert_eq!(rule.backend_refs[0].kind, "Service");
    assert_eq!(rule.backend_refs[0].name, "checkout-sandbox");
    assert_eq!(rule.backend_refs[0].port, 80);
}

#[test]
fn generates_capability_gated_host_gateway_http_route_manifest() {
    let capabilities = supported_gateway_capabilities();
    let route = resource("shop", "HTTPRoute", "checkout-preview");
    let gateway = resource("platform", "Gateway", "edge");
    let service = resource("shop", "Service", "checkout-sandbox");
    let selector = RouteSelector::host("checkout-preview.example.com").unwrap();
    let labels = ownership_labels();

    let manifest = generate_gateway_host_http_route_manifest(
        &capabilities,
        GatewayHttpRouteManifestInput {
            route: &route,
            parent_gateway: &gateway,
            backend_service: &service,
            backend_port: 80,
            selector: &selector,
            labels: &labels,
            annotations: &[],
        },
    )
    .unwrap();

    assert_eq!(manifest.kind, "HTTPRoute");
    assert_eq!(
        manifest.spec.hostnames,
        ["checkout-preview.example.com".to_owned()]
    );
}

#[test]
fn rejects_host_gateway_http_route_manifest_without_capability_support() {
    let capabilities = model_gateway_route_capabilities(GatewayApiDiscoveryInput {
        gateway_classes: None,
        gateways: None,
        http_routes: None,
    });
    let route = resource("shop", "HTTPRoute", "checkout-preview");
    let gateway = resource("platform", "Gateway", "edge");
    let service = resource("shop", "Service", "checkout-sandbox");
    let selector = RouteSelector::host("checkout-preview.example.com").unwrap();

    let error = generate_gateway_host_http_route_manifest(
        &capabilities,
        GatewayHttpRouteManifestInput {
            route: &route,
            parent_gateway: &gateway,
            backend_service: &service,
            backend_port: 80,
            selector: &selector,
            labels: &[],
            annotations: &[],
        },
    )
    .unwrap_err();

    assert_eq!(error, GatewayHttpRouteManifestError::HostRoutingUnavailable);
    assert_eq!(
        error.to_string(),
        "Gateway capabilities do not support host-based preview routing"
    );
}

#[test]
fn rejects_header_selector_for_host_gateway_http_route_manifest() {
    let capabilities = supported_gateway_capabilities();
    let route = resource("shop", "HTTPRoute", "checkout-preview");
    let gateway = resource("platform", "Gateway", "edge");
    let service = resource("shop", "Service", "checkout-sandbox");
    let selector = RouteSelector::header("x-kply-session", "session-123").unwrap();

    let error = generate_gateway_host_http_route_manifest(
        &capabilities,
        GatewayHttpRouteManifestInput {
            route: &route,
            parent_gateway: &gateway,
            backend_service: &service,
            backend_port: 80,
            selector: &selector,
            labels: &[],
            annotations: &[],
        },
    )
    .unwrap_err();

    assert_eq!(
        error,
        GatewayHttpRouteManifestError::HostSelectorRequired {
            kind: "header".to_owned()
        }
    );
    assert_eq!(
        error.to_string(),
        "expected host route selector, found header"
    );
}

#[test]
fn rejects_non_http_route_manifest_resources() {
    let route = resource("shop", "ConfigMap", "checkout-kply");
    let gateway = resource("shop", "Gateway", "public");
    let service = resource("shop", "Service", "checkout-sandbox");
    let selector = RouteSelector::header("x-kply-session", "session-123").unwrap();

    let error = generate_gateway_http_route_manifest(GatewayHttpRouteManifestInput {
        route: &route,
        parent_gateway: &gateway,
        backend_service: &service,
        backend_port: 8080,
        selector: &selector,
        labels: &[],
        annotations: &[],
    })
    .unwrap_err();

    assert_eq!(
        error,
        GatewayHttpRouteManifestError::RouteKind {
            kind: "ConfigMap".to_owned()
        }
    );
    assert_eq!(
        error.to_string(),
        "expected HTTPRoute route resource, found ConfigMap"
    );
}

#[test]
fn generates_gateway_http_route_cleanup_target() {
    let route = resource("shop", "HTTPRoute", "checkout-kply");
    let labels = ownership_labels();

    let target = gateway_http_route_cleanup_target(&route, &labels).unwrap();

    assert_eq!(target.api_version, "gateway.networking.k8s.io/v1");
    assert_eq!(target.kind, "HTTPRoute");
    assert_eq!(target.namespace, "shop");
    assert_eq!(target.name, "checkout-kply");
    assert_eq!(
        pairs(&target.selector.match_labels),
        vec![
            ("kply.dev/managed-by", "kply"),
            ("kply.dev/session-id", "session-123"),
        ]
    );
}

#[test]
fn generates_gateway_route_cleanup_selector() {
    let mut labels = ownership_labels();
    labels.push(MetadataEntry::new_label("pod-template-hash", "abc123").unwrap());
    labels.push(MetadataEntry::new_label("app.kubernetes.io/name", "checkout").unwrap());

    let selector = gateway_route_cleanup_selector(&labels).unwrap();

    assert_eq!(
        pairs(&selector.match_labels),
        vec![
            ("kply.dev/managed-by", "kply"),
            ("kply.dev/session-id", "session-123"),
        ]
    );
}

#[test]
fn rejects_non_http_route_cleanup_targets() {
    let route = resource("shop", "ConfigMap", "checkout-kply");
    let labels = ownership_labels();

    let error = gateway_http_route_cleanup_target(&route, &labels).unwrap_err();

    assert_eq!(
        error,
        GatewayHttpRouteManifestError::RouteKind {
            kind: "ConfigMap".to_owned()
        }
    );
    assert_eq!(
        error.to_string(),
        "expected HTTPRoute route resource, found ConfigMap"
    );
}

#[test]
fn rejects_gateway_route_cleanup_selector_without_ownership_labels() {
    let labels = vec![MetadataEntry::new_label("kply.dev/session-id", "session-123").unwrap()];

    let error = gateway_route_cleanup_selector(&labels).unwrap_err();

    assert_eq!(
        error,
        GatewayHttpRouteManifestError::MissingOwnershipLabel {
            key: "kply.dev/app"
        }
    );
}

#[test]
fn rejects_gateway_http_route_manifest_without_ownership_labels() {
    let route = resource("shop", "HTTPRoute", "checkout-kply");
    let gateway = resource("shop", "Gateway", "public");
    let service = resource("shop", "Service", "checkout-sandbox");
    let selector = RouteSelector::header("x-kply-session", "session-123").unwrap();
    let labels = vec![MetadataEntry::new_label("kply.dev/session-id", "session-123").unwrap()];

    let error = generate_gateway_http_route_manifest(GatewayHttpRouteManifestInput {
        route: &route,
        parent_gateway: &gateway,
        backend_service: &service,
        backend_port: 8080,
        selector: &selector,
        labels: &labels,
        annotations: &[],
    })
    .unwrap_err();

    assert_eq!(
        error,
        GatewayHttpRouteManifestError::MissingOwnershipLabel {
            key: "kply.dev/app"
        }
    );
    assert_eq!(
        error.to_string(),
        "HTTPRoute manifest is missing ownership label `kply.dev/app`"
    );
}

#[test]
fn rejects_non_gateway_parent_resources() {
    let route = resource("shop", "HTTPRoute", "checkout-kply");
    let gateway = resource("shop", "Service", "not-a-gateway");
    let service = resource("shop", "Service", "checkout-sandbox");
    let selector = RouteSelector::header("x-kply-session", "session-123").unwrap();

    let error = generate_gateway_http_route_manifest(GatewayHttpRouteManifestInput {
        route: &route,
        parent_gateway: &gateway,
        backend_service: &service,
        backend_port: 8080,
        selector: &selector,
        labels: &[],
        annotations: &[],
    })
    .unwrap_err();

    assert_eq!(
        error,
        GatewayHttpRouteManifestError::ParentKind {
            kind: "Service".to_owned()
        }
    );
    assert_eq!(
        error.to_string(),
        "expected Gateway parent resource, found Service"
    );
}

#[test]
fn rejects_non_service_backend_resources() {
    let route = resource("shop", "HTTPRoute", "checkout-kply");
    let gateway = resource("shop", "Gateway", "public");
    let service = resource("shop", "Deployment", "checkout-sandbox");
    let selector = RouteSelector::header("x-kply-session", "session-123").unwrap();

    let error = generate_gateway_http_route_manifest(GatewayHttpRouteManifestInput {
        route: &route,
        parent_gateway: &gateway,
        backend_service: &service,
        backend_port: 8080,
        selector: &selector,
        labels: &[],
        annotations: &[],
    })
    .unwrap_err();

    assert_eq!(
        error,
        GatewayHttpRouteManifestError::BackendKind {
            kind: "Deployment".to_owned()
        }
    );
    assert_eq!(
        error.to_string(),
        "expected Service backend resource, found Deployment"
    );
}

#[test]
fn rejects_cross_namespace_backend_services() {
    let route = resource("shop", "HTTPRoute", "checkout-kply");
    let gateway = resource("shop", "Gateway", "public");
    let service = resource("payments", "Service", "checkout-sandbox");
    let selector = RouteSelector::header("x-kply-session", "session-123").unwrap();

    let error = generate_gateway_http_route_manifest(GatewayHttpRouteManifestInput {
        route: &route,
        parent_gateway: &gateway,
        backend_service: &service,
        backend_port: 8080,
        selector: &selector,
        labels: &[],
        annotations: &[],
    })
    .unwrap_err();

    assert_eq!(
        error,
        GatewayHttpRouteManifestError::BackendNamespace {
            route_namespace: "shop".to_owned(),
            backend_namespace: "payments".to_owned()
        }
    );
}

#[test]
fn qualifies_resource_names_with_namespace() {
    assert_eq!(qualified_resource_name("shop", "public"), "shop/public");
    assert_eq!(qualified_resource_name("", "edge"), "edge");
}

fn gateway_class(name: &str, controller_name: Option<&str>) -> GatewayClassSummary {
    GatewayClassSummary {
        name: name.to_owned(),
        controller_name: controller_name.map(ToOwned::to_owned),
        description: None,
    }
}

fn gateway(namespace: &str, name: &str, gateway_class_name: &str) -> GatewaySummary {
    gateway_with_protocol(namespace, name, gateway_class_name, Some("HTTP"))
}

fn ownership_labels() -> Vec<MetadataEntry> {
    vec![
        MetadataEntry::new_label("kply.dev/app", "checkout").unwrap(),
        MetadataEntry::new_label("kply.dev/managed-by", "kply").unwrap(),
        MetadataEntry::new_label("kply.dev/session-id", "session-123").unwrap(),
        MetadataEntry::new_label("kply.dev/session-name", "checkout-test").unwrap(),
    ]
}

fn supported_gateway_capabilities() -> GatewayRouteCapabilities {
    let gateway_classes = vec![gateway_class("istio", Some("istio.io/gateway-controller"))];
    let gateways = vec![gateway("shop", "public", "istio")];
    let http_routes: Vec<HttpRouteSummary> = Vec::new();

    model_gateway_route_capabilities(GatewayApiDiscoveryInput {
        gateway_classes: Some(&gateway_classes),
        gateways: Some(&gateways),
        http_routes: Some(&http_routes),
    })
}

fn gateway_with_protocol(
    namespace: &str,
    name: &str,
    gateway_class_name: &str,
    protocol: Option<&str>,
) -> GatewaySummary {
    GatewaySummary {
        namespace: namespace.to_owned(),
        name: name.to_owned(),
        gateway_class_name: Some(gateway_class_name.to_owned()),
        listeners: vec![GatewayListenerSummary {
            name: Some("http".to_owned()),
            hostname: None,
            port: Some(80),
            protocol: protocol.map(ToOwned::to_owned),
        }],
    }
}

fn resource(namespace: &str, kind: &str, name: &str) -> KubernetesResourceRef {
    KubernetesResourceRef::new(namespace, kind, name).unwrap()
}

#[test]
fn cleanup_selector_labels_appear_on_the_generated_route() {
    let route = resource("shop", "HTTPRoute", "checkout-kply");
    let gateway = resource("platform", "Gateway", "public");
    let service = resource("shop", "Service", "checkout-sandbox");
    let selector = RouteSelector::host("checkout-preview.example.com").unwrap();
    let mut labels = ownership_labels();
    labels.push(MetadataEntry::new_label("kply.dev/session-id", "session-456").unwrap());
    labels.push(MetadataEntry::new_label("pod-template-hash", "abc123").unwrap());

    let manifest = generate_gateway_http_route_manifest(GatewayHttpRouteManifestInput {
        route: &route,
        parent_gateway: &gateway,
        backend_service: &service,
        backend_port: 80,
        selector: &selector,
        labels: &labels,
        annotations: &[],
    })
    .unwrap();
    let cleanup = gateway_route_cleanup_selector(&labels).unwrap();

    let route_labels = pairs(&manifest.metadata.labels);
    for label in pairs(&cleanup.match_labels) {
        assert!(route_labels.contains(&label), "{label:?} missing from the route");
    }
    assert!(pairs(&cleanup.match_labels).contains(&("kply.dev/session-id", "session-456")));
}

#[test]
fn supported_header_routing_gives_the_plain_route_manifest() {
    let capabilities = supported_gateway_capabilities();
    let route = resource("shop", "HTTPRoute", "checkout-kply");
    let gateway = resource("platform", "Gateway", "public");
    let service = resource("shop", "Service", "checkout-sandbox");
    let selector = RouteSelector::header("x-kply-session", "session-123").unwrap();
    let labels = ownership_labels();
    let input = || GatewayHttpRouteManifestInput {
        route: &route,
        parent_gateway: &gateway,
        backend_service: &service,
        backend_port: 8080,
        selector: &selector,
        labels: &labels,
        annotations: &[],
    };
    assert_eq!(
        generate_gateway_header_http_route_manifest(&capabilities, input()),
        generate_gateway_http_route_manifest(input())
    );
}

#[test]
fn cleanup_target_holds_the_cleanup_selector() {
    let route = resource("shop", "HTTPRoute", "checkout-kply");
    let labels = ownership_labels();
    let target = gateway_http_route_cleanup_target(&route, &labels).unwrap();
    assert_eq!(target.selector, gateway_route_cleanup_selector(&labels).unwrap());
    assert_eq!(target.namespace, "shop");
    assert_eq!(target.name, "checkout-kply");
    let unlabeled = gateway_http_route_cleanup_target(&route, &[]).unwrap_err();
    assert_eq!(unlabeled, gateway_route_cleanup_selector(&[]).unwrap_err());
}

#[test]
fn supported_host_routing_gives_the_plain_route_manifest() {
    let capabilities = supported_gateway_capabilities();
    let route = resource("shop", "HTTPRoute", "checkout-preview");
    let gateway = resource("shop", "Gateway", "public");
    let service = resource("shop", "Service", "checkout-sandbox");
    let selector = RouteSelector::host("checkout-preview.example.com").unwrap();
    let labels = ownership_labels();
    let input = || GatewayHttpRouteManifestInput {
        route: &route,
        parent_gateway: &gateway,
        backend_service: &service,
        backend_port: 80,
        selector: &selector,
        labels: &labels,
        annotations: &[],
    };
    assert_eq!(
        generate_gateway_host_http_route_manifest(&capabilities, input()),
        generate_gateway_http_route_manifest(input())
    );
    let no_labels = GatewayHttpRouteManifestInput { labels: &[], ..input() };
    assert_eq!(
        generate_gateway_host_http_route_manifest(&capabilities, no_labels),
        generate_gateway_http_route_manifest(no_labels)
    );
}
