use kply::gateway::{gateway_class_summary, gateway_summary, http_route_summary, DynamicResource};
use kply::json::{get_field, text_field, integer_field, texts_in, JsonValue};
use kply::k8s::{
    GatewayClassSummary, GatewayListenerSummary, GatewaySummary, HttpRouteBackendRefSummary,
    HttpRouteRuleSummary, HttpRouteSummary, RouteParentRefSummary,
};

fn text(s: &str) -> JsonValue {
    JsonValue::String(s.to_owned())
}

fn num(n: i64) -> JsonValue {
    JsonValue::Number { integer: Some(n) }
}

fn obj(members: Vec<(&str, JsonValue)>) -> JsonValue {
    JsonValue::Object(members.into_iter().map(|(k, v)| (k.to_owned(), v)).collect())
}

fn resource(namespace: Option<&str>, name: &str, data: JsonValue) -> DynamicResource {
    DynamicResource {
        namespace: namespace.map(str::to_owned),
        name: name.to_owned(),
        data,
    }
}

#[test]
fn summarizes_gateway_class_metadata() {
    let gateway_class = resource(
        None,
        "public",
        obj(vec![(
            "spec",
            obj(vec![
                ("controllerName", text("example.com/gateway-controller")),
                ("description", text("Public edge gateways")),
            ]),
        )]),
    );

    let summary = gateway_class_summary(&gateway_class);

    assert_eq!(
        summary,
        GatewayClassSummary {
            name: "public".to_owned(),
            controller_name: Some("example.com/gateway-controller".to_owned()),
            description: Some("Public edge gateways".to_owned()),
        }
    );
}

#[test]
fn summarizes_gateway_listeners() {
    let gateway = resource(
        Some("shop"),
        "public-gateway",
        obj(vec![(
            "spec",
            obj(vec![
                ("gatewayClassName", text("public")),
                (
                    "listeners",
                    JsonValue::Array(vec![
                        obj(vec![
                            ("name", text("http")),
                            ("hostname", text("checkout.example.com")),
                            ("port", num(80)),
                            ("protocol", text("HTTP")),
                        ]),
                        obj(vec![
                            ("name", text("https")),
                            ("port", num(443)),
                            ("protocol", text("HTTPS")),
                        ]),
                    ]),
                ),
            ]),
        )]),
    );

    let summary = gateway_summary(&gateway);

    assert_eq!(
        summary,
        GatewaySummary {
            namespace: "shop".to_owned(),
            name: "public-gateway".to_owned(),
            gateway_class_name: Some("public".to_owned()),
            listeners: vec![
                GatewayListenerSummary {
                    name: Some("http".to_owned()),
                    hostname: Some("checkout.example.com".to_owned()),
                    port: Some(80),
                    protocol: Some("HTTP".to_owned()),
                },
                GatewayListenerSummary {
                    name: Some("https".to_owned()),
                    hostname: None,
                    port: Some(443),
                    protocol: Some("HTTPS".to_owned()),
                },
            ],
        }
    );
}

#[test]
fn summarizes_http_route_parents_hosts_and_backends() {
    let route = resource(
        Some("shop"),
        "checkout-route",
        obj(vec![(
            "spec",
            obj(vec![
                ("hostnames", JsonValue::Array(vec![text("checkout.example.com")])),
                (
                    "parentRefs",
                    JsonValue::Array(vec![obj(vec![
                        ("kind", text("Gateway")),
                        ("namespace", text("platform")),
                        ("name", text("public-gateway")),
                        ("sectionName", text("https")),
                    ])]),
                ),
                (
                    "rules",
                    JsonValue::Array(vec![obj(vec![(
                        "backendRefs",
                        JsonValue::Array(vec![
                            obj(vec![
                                ("kind", text("Service")),
                                ("name", text("checkout-http")),
                                ("port", num(80)),
                            ]),
                            obj(vec![
                                ("kind", text("Service")),
                                ("namespace", text("shared")),
                                ("name", text("checkout-canary")),
                                ("port", num(8080)),
                            ]),
                        ]),
                    )])]),
                ),
            ]),
        )]),
    );

    let summary = http_route_summary(&route);

    assert_eq!(
        summary,
        HttpRouteSummary {
            namespace: "shop".to_owned(),
            name: "checkout-route".to_owned(),
            hostnames: vec!["checkout.example.com".to_owned()],
            parent_refs: vec![RouteParentRefSummary {
                kind: Some("Gateway".to_owned()),
                namespace: Some("platform".to_owned()),
                name: Some("public-gateway".to_owned()),
                section_name: Some("https".to_owned()),
            }],
            rules: vec![HttpRouteRuleSummary {
                backend_refs: vec![
                    HttpRouteBackendRefSummary {
                        kind: Some("Service".to_owned()),
                        namespace: None,
                        name: Some("checkout-http".to_owned()),
                        port: Some(80),
                    },
                    HttpRouteBackendRefSummary {
                        kind: Some("Service".to_owned()),
                        namespace: Some("shared".to_owned()),
                        name: Some("checkout-canary".to_owned()),
                        port: Some(8080),
                    },
                ],
            }],
        }
    );
}

#[test]
fn summarizes_minimal_gateway_api_resources() {
    let gateway_class = resource(None, "minimal-class", JsonValue::Null);
    let gateway = resource(None, "minimal-gateway", JsonValue::Null);
    let route = resource(None, "minimal-route", JsonValue::Null);

    assert_eq!(
        gateway_class_summary(&gateway_class),
        GatewayClassSummary {
            name: "minimal-class".to_owned(),
            controller_name: None,
            description: None,
        }
    );
    assert_eq!(
        gateway_summary(&gateway),
        GatewaySummary {
            namespace: String::new(),
            name: "minimal-gateway".to_owned(),
            gateway_class_name: None,
            listeners: Vec::new(),
        }
    );
    assert_eq!(
        http_route_summary(&route),
        HttpRouteSummary {
            namespace: String::new(),
            name: "minimal-route".to_owned(),
            hostnames: Vec::new(),
            parent_refs: Vec::new(),
            rules: Vec::new(),
        }
    );
}

#[test]
fn field_lookup_ignores_values_that_are_not_objects() {
    let list = JsonValue::Array(vec![text("spec")]);
    assert!(get_field(Some(&list), "spec").is_none());
    assert!(get_field(None, "spec").is_none());
    assert_eq!(text_field(Some(&text("x")), "x"), None);
}

#[test]
fn typed_fields_need_values_of_that_type() {
    let doc = obj(vec![
        ("port", text("80")),
        ("name", num(3)),
        ("big", JsonValue::Number { integer: None }),
    ]);
    assert_eq!(integer_field(Some(&doc), "port"), None);
    assert_eq!(text_field(Some(&doc), "name"), None);
    assert_eq!(integer_field(Some(&doc), "big"), None);
}

#[test]
fn string_items_keep_their_order_and_skip_other_values() {
    let items = vec![text("b.example.com"), num(1), JsonValue::Null, text("a.example.com")];
    assert_eq!(
        texts_in(&items),
        vec!["b.example.com".to_owned(), "a.example.com".to_owned()]
    );
}

#[test]
fn hostnames_that_are_not_strings_are_left_out() {
    let route = resource(
        Some("shop"),
        "r",
        obj(vec![(
            "spec",
            obj(vec![
                ("hostnames", JsonValue::Array(vec![num(7), text("x.example.com")])),
                ("parentRefs", text("not a list")),
            ]),
        )]),
    );
    let summary = http_route_summary(&route);
    assert_eq!(summary.hostnames, vec!["x.example.com".to_owned()]);
    assert!(summary.parent_refs.is_empty());
}
