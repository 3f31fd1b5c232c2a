use kply::cleanup::{
    deletion_targets, name_precedes, session_cleanup_resources, CleanupAction, CleanupEvent,
    ListedResource, SessionCleanup,
};
use kply::k8s::ResourceDeletionSummary;

fn listed(name: &str) -> ListedResource {
    ListedResource {
        namespace: None,
        name: name.to_owned(),
    }
}

fn target(kind: &str, namespace: &str, name: &str) -> ResourceDeletionSummary {
    ResourceDeletionSummary {
        kind: kind.to_owned(),
        namespace: namespace.to_owned(),
        name: name.to_owned(),
    }
}

fn expect_delete(action: CleanupAction) -> ResourceDeletionSummary {
    match action {
        CleanupAction::Delete { target } => target,
        other => panic!("expected a delete request, got {other:?}"),
    }
}

#[test]
fn sorts_deletion_targets_by_name() {
    let found = deletion_targets(
        "Service",
        "shop",
        &[
            listed("checkout-b"),
            ListedResource {
                namespace: Some("other".to_owned()),
                name: "checkout-a".to_owned(),
            },
            listed("checkout"),
        ],
    );

    assert_eq!(
        found,
        vec![
            target("Service", "shop", "checkout"),
            target("Service", "other", "checkout-a"),
            target("Service", "shop", "checkout-b"),
        ]
    );
}

#[test]
fn keeps_list_order_for_equal_names() {
    let found = deletion_targets(
        "Deployment",
        "shop",
        &[
            ListedResource {
                namespace: Some("b".to_owned()),
                name: "api".to_owned(),
            },
            listed("aaa"),
            ListedResource {
                namespace: Some("a".to_owned()),
                name: "api".to_owned(),
            },
        ],
    );

    assert_eq!(
        found,
        vec![
            target("Deployment", "shop", "aaa"),
            target("Deployment", "b", "api"),
            target("Deployment", "a", "api"),
        ]
    );
}

#[test]
fn orders_names_by_characters() {
    assert!(name_precedes("a", "b"));
    assert!(name_precedes("api", "api-2"));
    assert!(!name_precedes("api", "api"));
    assert!(!name_precedes("b", "a"));
    assert!(name_precedes("Z", "a"));
}

#[test]
fn lists_services_before_deployments() {
    let resources = session_cleanup_resources(
        "shop",
        &[listed("svc-b"), listed("svc-a")],
        &[listed("dep-b"), listed("dep-a")],
    );

    assert_eq!(
        resources,
        vec![
            target("Service", "shop", "svc-a"),
            target("Service", "shop", "svc-b"),
            target("Deployment", "shop", "dep-a"),
            target("Deployment", "shop", "dep-b"),
        ]
    );
}

#[test]
fn cleans_up_every_session_resource() {
    let (cleanup, action) = SessionCleanup::start("shop", "session-123");
    assert_eq!(
        action,
        CleanupAction::ListServices {
            selector: "kply.dev/managed-by=kply,kply.dev/session-id=session-123".to_owned()
        }
    );

    let (cleanup, action) =
        cleanup.step(CleanupEvent::Listed(vec![listed("svc-b"), listed("svc-a")]));
    assert_eq!(
        action,
        CleanupAction::ListDeployments {
            selector: "kply.dev/managed-by=kply,kply.dev/session-id=session-123".to_owned()
        }
    );

    let (cleanup, action) = cleanup.step(CleanupEvent::Listed(vec![listed("dep")]));
    assert_eq!(expect_delete(action), target("Service", "shop", "svc-a"));

    let (cleanup, action) = cleanup.step(CleanupEvent::DeleteAccepted);
    assert_eq!(expect_delete(action), target("Service", "shop", "svc-b"));

    let (cleanup, action) = cleanup.step(CleanupEvent::DeleteRejected { status: Some(404) });
    assert_eq!(expect_delete(action), target("Deployment", "shop", "dep"));

    let (_cleanup, action) = cleanup.step(CleanupEvent::DeleteAccepted);
    assert_eq!(
        action,
        CleanupAction::Finish(Ok(vec![
            target("Service", "shop", "svc-a"),
            target("Service", "shop", "svc-b"),
            target("Deployment", "shop", "dep"),
        ]))
    );
}

#[test]
fn finishes_at_once_without_session_resources() {
    let (cleanup, _) = SessionCleanup::start("shop", "session-123");
    let (cleanup, _) = cleanup.step(CleanupEvent::Listed(Vec::new()));
    let (_cleanup, action) = cleanup.step(CleanupEvent::Listed(Vec::new()));

    assert_eq!(action, CleanupAction::Finish(Ok(Vec::new())));
}

#[test]
fn reports_accepted_and_pending_resources_when_delete_fails() {
    let (cleanup, _) = SessionCleanup::start("shop", "session-123");
    let (cleanup, _) = cleanup.step(CleanupEvent::Listed(vec![listed("svc-a"), listed("svc-b")]));
    let (cleanup, _) = cleanup.step(CleanupEvent::Listed(vec![listed("dep")]));
    let (cleanup, _) = cleanup.step(CleanupEvent::DeleteAccepted);
    let (_cleanup, action) = cleanup.step(CleanupEvent::DeleteRejected { status: Some(403) });

    match action {
        CleanupAction::Finish(Err(failure)) => {
            assert_eq!(
                failure.deletion_accepted_resources,
                vec![target("Service", "shop", "svc-a")]
            );
            assert_eq!(
                failure.pending_resources,
                vec![
                    target("Service", "shop", "svc-b"),
                    target("Deployment", "shop", "dep"),
                ]
            );
        }
        other => panic!("expected a failed cleanup, got {other:?}"),
    }
}

#[test]
fn reports_listed_services_pending_when_deployment_list_fails() {
    let (cleanup, _) = SessionCleanup::start("shop", "session-123");
    let (cleanup, _) = cleanup.step(CleanupEvent::Listed(vec![listed("svc")]));
    let (_cleanup, action) = cleanup.step(CleanupEvent::ListFailed);

    match action {
        CleanupAction::Finish(Err(failure)) => {
            assert!(failure.deletion_accepted_resources.is_empty());
            assert_eq!(
                failure.pending_resources,
                vec![target("Service", "shop", "svc")]
            );
        }
        other => panic!("expected a failed cleanup, got {other:?}"),
    }
}

#[test]
fn reports_nothing_when_service_list_fails() {
    let (cleanup, _) = SessionCleanup::start("shop", "session-123");
    let (_cleanup, action) = cleanup.step(CleanupEvent::ListFailed);

    match action {
        CleanupAction::Finish(Err(failure)) => {
            assert!(failure.deletion_accepted_resources.is_empty());
            assert!(failure.pending_resources.is_empty());
        }
        other => panic!("expected a failed cleanup, got {other:?}"),
    }
}

#[test]
fn treats_failures_without_status_as_fatal() {
    let (cleanup, _) = SessionCleanup::start("shop", "session-123");
    let (cleanup, _) = cleanup.step(CleanupEvent::Listed(Vec::new()));
    let (cleanup, _) = cleanup.step(CleanupEvent::Listed(vec![listed("dep")]));
    let (_cleanup, action) = cleanup.step(CleanupEvent::DeleteRejected { status: None });

    match action {
        CleanupAction::Finish(Err(failure)) => {
            assert!(failure.deletion_accepted_resources.is_empty());
            assert_eq!(
                failure.pending_resources,
                vec![target("Deployment", "shop", "dep")]
            );
        }
        other => panic!("expected a failed cleanup, got {other:?}"),
    }
}

#[test]
fn deletes_what_the_listing_shows() {
    let services = vec![listed("svc-b"), listed("svc-a"), listed("svc-c")];
    let deployments = vec![listed("dep-b"), listed("dep-a")];
    let listing = session_cleanup_resources("shop", &services, &deployments);

    let (cleanup, _) = SessionCleanup::start("shop", "session-123");
    let (cleanup, _) = cleanup.step(CleanupEvent::Listed(services));
    let (mut cleanup, mut action) = cleanup.step(CleanupEvent::Listed(deployments));
    let mut deleted_in_order = Vec::new();
    loop {
        match action {
            CleanupAction::Delete { target } => {
                deleted_in_order.push(target);
                let (next, next_action) = cleanup.step(CleanupEvent::DeleteAccepted);
                cleanup = next;
                action = next_action;
            }
            CleanupAction::Finish(Ok(done)) => {
                assert_eq!(done, listing);
                break;
            }
            other => panic!("unexpected request {other:?}"),
        }
    }
    assert_eq!(deleted_in_order, listing);
}
