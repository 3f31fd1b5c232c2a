//! Sandbox Kubernetes manifests generated from a dry-run session plan.

use vstd::prelude::*;
use crate::ids::KubernetesResourceRef;
use crate::order::views;
use crate::metadata::{key_at, present, MetadataEntry};
use crate::session::SessionPlan;
use crate::text::{push_signed_decimal, push_str, str_eq, string_of, signed_decimal};
use crate::token::{session_token_check, validate_session_token};

verus! {

/// Labels that every sandbox object must carry so that Kply owns it.
pub open spec fn ownership_labels() -> Seq<Seq<char>> {
    seq!["kply.dev/app"@, "kply.dev/managed-by"@, "kply.dev/session-id"@, "kply.dev/session-name"@]
}

/// Annotations that record what a sandbox object was created for.
pub open spec fn audit_annotations() -> Seq<Seq<char>> {
    seq!["kply.dev/image"@, "kply.dev/route-strategy"@, "kply.dev/workload"@]
}

/// Whether a planned label is carried into sandbox manifests: ownership labels
/// and safe application identity labels only.
pub open spec fn preserved_label(key: Seq<char>) -> bool {
    key == "kply.dev/app"@ || key == "kply.dev/managed-by"@ || key == "kply.dev/session-id"@
        || key == "kply.dev/session-name"@ || key == "app.kubernetes.io/component"@ || key
        == "app.kubernetes.io/instance"@ || key == "app.kubernetes.io/name"@ || key
        == "app.kubernetes.io/part-of"@
}

/// Whether a planned annotation is carried into sandbox manifests: Kply audit
/// annotations only.
pub open spec fn preserved_annotation(key: Seq<char>) -> bool {
    key == "kply.dev/image"@ || key == "kply.dev/route-strategy"@ || key == "kply.dev/workload"@
}

/// The first ownership label, in the order of [`ownership_labels`], that no
/// entry of `s` has.
pub open spec fn first_absent_ownership(s: Seq<MetadataEntry>) -> Option<Seq<char>> {
    if !present(s, "kply.dev/app"@) {
        Some("kply.dev/app"@)
    } else if !present(s, "kply.dev/managed-by"@) {
        Some("kply.dev/managed-by"@)
    } else if !present(s, "kply.dev/session-id"@) {
        Some("kply.dev/session-id"@)
    } else if !present(s, "kply.dev/session-name"@) {
        Some("kply.dev/session-name"@)
    } else {
        None
    }
}

/// The first audit annotation, in the order of [`audit_annotations`], that no
/// entry of `s` has.
pub open spec fn first_absent_audit(s: Seq<MetadataEntry>) -> Option<Seq<char>> {
    if !present(s, "kply.dev/image"@) {
        Some("kply.dev/image"@)
    } else if !present(s, "kply.dev/route-strategy"@) {
        Some("kply.dev/route-strategy"@)
    } else if !present(s, "kply.dev/workload"@) {
        Some("kply.dev/workload"@)
    } else {
        None
    }
}

/// The entries of `s` whose keys are carried as labels, in order.
pub open spec fn kept_labels(s: Seq<MetadataEntry>) -> Seq<MetadataEntry> {
    s.filter(|e: MetadataEntry| preserved_label(e@.0))
}

/// The entries of `s` whose keys are carried as annotations, in order.
pub open spec fn kept_annotations(s: Seq<MetadataEntry>) -> Seq<MetadataEntry> {
    s.filter(|e: MetadataEntry| preserved_annotation(e@.0))
}

/// The planned resources of a given kind.
pub open spec fn of_kind(s: Seq<KubernetesResourceRef>, kind: Seq<char>) -> Seq<KubernetesResourceRef> {
    s.filter(|r: KubernetesResourceRef| r@.1 == kind)
}

/// Error returned when sandbox manifests cannot be generated from a plan.
#[derive(Debug, Clone, PartialEq, Eq)]
pub enum SandboxManifestError {
    /// The session plan did not include a Deployment resource.
    MissingDeploymentResource,
    /// The session plan included more than one Deployment resource.
    MultipleDeploymentResources,
    /// The session plan did not include a Service resource.
    MissingServiceResource,
    /// The session plan included more than one Service resource.
    MultipleServiceResources,
    /// The session plan did not include labels for generated selectors.
    MissingSelectorLabels,
    /// The session plan did not include a required ownership label.
    MissingOwnershipLabel { key: &'static str },
    /// The session plan did not include a required audit annotation.
    MissingAuditAnnotation { key: &'static str },
    /// The requested resource kind is not supported for sandbox manifests.
    UnsupportedResourceKind { kind: String },
    /// The service port name was not a valid Kubernetes DNS label.
    InvalidServicePortName,
    /// The service port value was outside the Kubernetes port range.
    InvalidServicePort { field: &'static str, value: i32 },
}

impl SandboxManifestError {
    /// The human-readable message for this error.
    pub open spec fn text(self) -> Seq<char> {
        match self {
            SandboxManifestError::MissingDeploymentResource =>
                "session plan does not include a Deployment resource"@,
            SandboxManifestError::MultipleDeploymentResources =>
                "session plan includes multiple Deployment resources"@,
            SandboxManifestError::MissingServiceResource =>
                "session plan does not include a Service resource"@,
            SandboxManifestError::MultipleServiceResources =>
                "session plan includes multiple Service resources"@,
            SandboxManifestError::MissingSelectorLabels =>
                "session plan does not include selector labels"@,
            SandboxManifestError::MissingOwnershipLabel { key } =>
                "session plan does not include ownership label `"@ + key@ + "`"@,
            SandboxManifestError::MissingAuditAnnotation { key } =>
                "session plan does not include audit annotation `"@ + key@ + "`"@,
            SandboxManifestError::UnsupportedResourceKind { kind } =>
                "unsupported sandbox manifest resource kind `"@ + kind@ + "`"@,
            SandboxManifestError::InvalidServicePortName =>
                "service port name must be a valid Kubernetes DNS label"@,
            SandboxManifestError::InvalidServicePort { field, value } => "service "@ + field@
                + " must be between 1 and 65535, got "@ + signed_decimal(value as int),
        }
    }

    /// Render the human-readable message for this error.
    pub fn to_string(&self) -> (m: String)
        ensures
            m@ == self.text(),
    {
        match self {
            SandboxManifestError::MissingDeploymentResource => string_of(
                "session plan does not include a Deployment resource",
            ),
            SandboxManifestError::MultipleDeploymentResources => string_of(
                "session plan includes multiple Deployment resources",
            ),
            SandboxManifestError::MissingServiceResource => string_of(
                "session plan does not include a Service resource",
            ),
            SandboxManifestError::MultipleServiceResources => string_of(
                "session plan includes multiple Service resources",
            ),
            SandboxManifestError::MissingSelectorLabels => string_of(
                "session plan does not include selector labels",
            ),
            SandboxManifestError::MissingOwnershipLabel { key } => {
                let mut m = string_of("session plan does not include ownership label `");
                push_str(&mut m, key);
                push_str(&mut m, "`");
                m
            },
            SandboxManifestError::MissingAuditAnnotation { key } => {
                let mut m = string_of("session plan does not include audit annotation `");
                push_str(&mut m, key);
                push_str(&mut m, "`");
                m
            },
            SandboxManifestError::UnsupportedResourceKind { kind } => {
                let mut m = string_of("unsupported sandbox manifest resource kind `");
                push_str(&mut m, kind.as_str());
                push_str(&mut m, "`");
                m
            },
            SandboxManifestError::InvalidServicePortName => string_of(
                "service port name must be a valid Kubernetes DNS label",
            ),
            SandboxManifestError::InvalidServicePort { field, value } => {
                let mut m = string_of("service ");
                push_str(&mut m, field);
                push_str(&mut m, " must be between 1 and 65535, got ");
                push_signed_decimal(&mut m, *value);
                m
            },
        }
    }
}

/// Whether `s` has an entry with key `k`.
fn contains_key(s: &[MetadataEntry], k: &str) -> (r: bool)
    ensures
        r == present(s@, k@),
{
    let n = s.len();
    for i in 0..n
        invariant
            n == s@.len(),
            forall|q: int| 0 <= q < i ==> s@[q]@.0 != k@,
    {
        if str_eq(s[i].key(), k) {
            assert(key_at(s@, i as int, k@));
            return true;
        }
    }
    assert forall|q: int| !(#[trigger] key_at(s@, q, k@)) by {
        if 0 <= q < n {
            assert(s@[q]@.0 != k@);
        }
    }
    false
}

/// Whether a planned label key is carried into sandbox manifests.
fn should_preserve_label(k: &str) -> (r: bool)
    ensures
        r == preserved_label(k@),
{
    str_eq(k, "kply.dev/app") || str_eq(k, "kply.dev/managed-by") || str_eq(k, "kply.dev/session-id")
        || str_eq(k, "kply.dev/session-name") || str_eq(k, "app.kubernetes.io/component")
        || str_eq(k, "app.kubernetes.io/instance") || str_eq(k, "app.kubernetes.io/name")
        || str_eq(k, "app.kubernetes.io/part-of")
}

/// Whether a planned annotation key is carried into sandbox manifests.
fn should_preserve_annotation(k: &str) -> (r: bool)
    ensures
        r == preserved_annotation(k@),
{
    str_eq(k, "kply.dev/image") || str_eq(k, "kply.dev/route-strategy") || str_eq(k, "kply.dev/workload")
}

/// Copies of the planned labels that sandbox manifests carry, in order.
pub(crate) fn sandbox_labels(s: &[MetadataEntry]) -> (r: Vec<MetadataEntry>)
    ensures
        views(r@) == views(kept_labels(s@)),
{
    let mut out: Vec<MetadataEntry> = Vec::new();
    let n = s.len();
    for i in 0..n
        invariant
            n == s@.len(),
            views(out@) == views(kept_labels(s@.take(i as int))),
    {
        proof {
            reveal(Seq::filter);
            assert(s@.take(i + 1).drop_last() =~= s@.take(i as int));
        }
        if should_preserve_label(s[i].key()) {
            let e = s[i].clone();
            let ghost before = out@;
            out.push(e);
            assert(views(out@) =~= views(before).push(s@[i as int]@));
            assert(views(kept_labels(s@.take(i + 1))) =~= views(kept_labels(s@.take(i as int))).push(s@[i as int]@));
        } else {
            assert(kept_labels(s@.take(i + 1)) == kept_labels(s@.take(i as int)));
        }
    }
    assert(s@.take(n as int) =~= s@);
    out
}

/// Copies of the planned annotations that sandbox manifests carry, in order.
fn sandbox_annotations(s: &[MetadataEntry]) -> (r: Vec<MetadataEntry>)
    ensures
        views(r@) == views(kept_annotations(s@)),
{
    let mut out: Vec<MetadataEntry> = Vec::new();
    let n = s.len();
    for i in 0..n
        invariant
            n == s@.len(),
            views(out@) == views(kept_annotations(s@.take(i as int))),
    {
        proof {
            reveal(Seq::filter);
            assert(s@.take(i + 1).drop_last() =~= s@.take(i as int));
        }
        if should_preserve_annotation(s[i].key()) {
            let e = s[i].clone();
            let ghost before = out@;
            out.push(e);
            assert(views(out@) =~= views(before).push(s@[i as int]@));
            assert(views(kept_annotations(s@.take(i + 1))) =~= views(kept_annotations(s@.take(i as int))).push(s@[i as int]@));
        } else {
            assert(kept_annotations(s@.take(i + 1)) == kept_annotations(s@.take(i as int)));
        }
    }
    assert(s@.take(n as int) =~= s@);
    out
}

/// Copy a list of entries.
fn copy_entries(s: &Vec<MetadataEntry>) -> (r: Vec<MetadataEntry>)
    ensures
        views(r@) == views(s@),
{
    let mut out: Vec<MetadataEntry> = Vec::new();
    let n = s.len();
    for i in 0..n
        invariant
            n == s@.len(),
            views(out@) == views(s@.take(i as int)),
    {
        let ghost before = out@;
        out.push(s[i].clone());
        assert(views(out@) =~= views(before).push(s@[i as int]@));
        assert(views(s@.take(i + 1)) =~= views(s@.take(i as int)).push(s@[i as int]@));
    }
    assert(s@.take(n as int) =~= s@);
    out
}

/// How many planned resources have `kind`, and where the first of them is.
fn find_kind(res: &[KubernetesResourceRef], kind: &str) -> (r: (usize, usize))
    ensures
        r.0 == of_kind(res@, kind@).len(),
        r.0 > 0 ==> r.1 < res@.len() && res@[r.1 as int] == of_kind(res@, kind@)[0],
{
    let mut count: usize = 0;
    let mut first: usize = 0;
    let n = res.len();
    for i in 0..n
        invariant
            n == res@.len(),
            count == of_kind(res@.take(i as int), kind@).len(),
            count <= i,
            count > 0 ==> first < i && res@[first as int] == of_kind(res@.take(i as int), kind@)[0],
    {
        proof {
            reveal(Seq::filter);
            assert(res@.take(i + 1).drop_last() =~= res@.take(i as int));
        }
        if str_eq(res[i].kind(), kind) {
            if count == 0 {
                first = i;
            }
            count = count + 1;
        }
    }
    assert(res@.take(n as int) =~= res@);
    (count, first)
}

/// Find the first ownership label the planned labels lack.
pub(crate) fn missing_ownership_label(s: &[MetadataEntry]) -> (r: Option<&'static str>)
    ensures
        match r {
            None => first_absent_ownership(s@) is None,
            Some(k) => first_absent_ownership(s@) == Some(k@),
        },
{
    if !contains_key(s, "kply.dev/app") {
        return Some("kply.dev/app");
    }
    if !contains_key(s, "kply.dev/managed-by") {
        return Some("kply.dev/managed-by");
    }
    if !contains_key(s, "kply.dev/session-id") {
        return Some("kply.dev/session-id");
    }
    if !contains_key(s, "kply.dev/session-name") {
        return Some("kply.dev/session-name");
    }
    None
}

/// Find the first audit annotation the planned annotations lack.
fn missing_audit_annotation(s: &[MetadataEntry]) -> (r: Option<&'static str>)
    ensures
        match r {
            None => first_absent_audit(s@) is None,
            Some(k) => first_absent_audit(s@) == Some(k@),
        },
{
    if !contains_key(s, "kply.dev/image") {
        return Some("kply.dev/image");
    }
    if !contains_key(s, "kply.dev/route-strategy") {
        return Some("kply.dev/route-strategy");
    }
    if !contains_key(s, "kply.dev/workload") {
        return Some("kply.dev/workload");
    }
    None
}

/// Kubernetes container spec for generated sandbox workloads.
#[derive(Debug, Clone, PartialEq, Eq)]
pub struct SandboxContainer {
    /// Container name.
    pub name: String,
    /// Container image.
    pub image: String,
}

/// Kubernetes pod spec for generated sandbox workloads.
#[derive(Debug, Clone, PartialEq, Eq)]
pub struct SandboxPodSpec {
    /// Containers of the pod.
    pub containers: Vec<SandboxContainer>,
}

/// Kubernetes pod template metadata for generated sandbox workloads.
#[derive(Debug, Clone, PartialEq, Eq)]
pub struct SandboxPodTemplateMetadata {
    /// Pod labels, by key.
    pub labels: Vec<MetadataEntry>,
    /// Pod annotations, by key.
    pub annotations: Vec<MetadataEntry>,
}

/// Kubernetes pod template for generated sandbox workloads.
#[derive(Debug, Clone, PartialEq, Eq)]
pub struct SandboxPodTemplate {
    /// Template metadata.
    pub metadata: SandboxPodTemplateMetadata,
    /// Template pod spec.
    pub spec: SandboxPodSpec,
}

/// Kubernetes label selector for generated sandbox manifests.
#[derive(Debug, Clone, PartialEq, Eq)]
pub struct SandboxLabelSelector {
    /// Labels that selected pods carry, by key.
    pub match_labels: Vec<MetadataEntry>,
}

/// Kubernetes Deployment spec for generated sandbox manifests.
#[derive(Debug, Clone, PartialEq, Eq)]
pub struct SandboxDeploymentSpec {
    /// Replica count.
    pub replicas: i32,
    /// Pod selector.
    pub selector: SandboxLabelSelector,
    /// Pod template.
    pub template: SandboxPodTemplate,
}

/// Kubernetes object metadata for generated sandbox manifests.
#[derive(Debug, Clone, PartialEq, Eq)]
pub struct SandboxObjectMetadata {
    /// Object name.
    pub name: String,
    /// Object namespace.
    pub namespace: String,
    /// Object labels, by key.
    pub labels: Vec<MetadataEntry>,
    /// Object annotations, by key.
    pub annotations: Vec<MetadataEntry>,
}

/// Kubernetes Deployment manifest generated for a sandbox session.
#[derive(Debug, Clone, PartialEq, Eq)]
pub struct SandboxDeploymentManifest {
    /// API version of the object.
    pub api_version: &'static str,
    /// Kind of the object.
    pub kind: &'static str,
    /// Object metadata.
    pub metadata: SandboxObjectMetadata,
    /// Deployment spec.
    pub spec: SandboxDeploymentSpec,
}

/// Kubernetes Service port for generated sandbox manifests.
#[derive(Debug, Clone, PartialEq, Eq)]
pub struct SandboxServicePort {
    /// Port name.
    pub name: String,
    /// Service port.
    pub port: i32,
    /// Target port on the pods.
    pub target_port: i32,
}

/// Kubernetes Service spec for generated sandbox manifests.
#[derive(Debug, Clone, PartialEq, Eq)]
pub struct SandboxServiceSpec {
    /// Labels that selected pods carry, by key.
    pub selector: Vec<MetadataEntry>,
    /// Service ports.
    pub ports: Vec<SandboxServicePort>,
}

/// Kubernetes Service manifest generated for a sandbox session.
#[derive(Debug, Clone, PartialEq, Eq)]
pub struct SandboxServiceManifest {
    /// API version of the object.
    pub api_version: &'static str,
    /// Kind of the object.
    pub kind: &'static str,
    /// Object metadata.
    pub metadata: SandboxObjectMetadata,
    /// Service spec.
    pub spec: SandboxServiceSpec,
}

/// A port number Kubernetes accepts.
pub open spec fn valid_port(value: i32) -> bool {
    1 <= value <= 65535
}

/// Port settings used when generating a sandbox Service manifest.
#[derive(Debug, PartialEq, Eq)]
pub struct SandboxServicePortConfig {
    name: String,
    port: i32,
    target_port: i32,
}

impl View for SandboxServicePortConfig {
    type V = (Seq<char>, i32, i32);

    closed spec fn view(&self) -> (Seq<char>, i32, i32) {
        (self.name@, self.port, self.target_port)
    }
}

/// The default HTTP Service port: `http`, port 80, target port 80.
pub open spec fn http_default_port() -> (Seq<char>, i32, i32) {
    ("http"@, 80i32, 80i32)
}

impl SandboxServicePortConfig {
    #[verifier::type_invariant]
    spec fn well_formed(self) -> bool {
        session_token_check(self.name@) is Ok && valid_port(self.port) && valid_port(self.target_port)
    }

    /// Create the default HTTP service port config: `http` on port 80 to port 80.
    pub fn http_default() -> (r: Self)
        ensures
            r@ == http_default_port(),
    {
        let name = string_of("http");
        proof {
            reveal_strlit("http");
            assert(name@ =~= seq!['h', 't', 't', 'p']);
            crate::text::lemma_ascii_utf8_len(name@);
            reveal_with_fuel(crate::text::first_outside, 5);
            assert(session_token_check(name@) is Ok);
        }
        SandboxServicePortConfig { name, port: 80, target_port: 80 }
    }

    /// Create a service port config from explicit values: the name must be a
    /// DNS label, then the port, then the target port must lie in 1..=65535.
    pub fn new(name: &str, port: i32, target_port: i32) -> (r: Result<Self, SandboxManifestError>)
        ensures
            match r {
                Ok(c) => session_token_check(name@) is Ok && valid_port(port) && valid_port(target_port)
                    && c@ == (name@, port, target_port),
                Err(SandboxManifestError::InvalidServicePortName) => !(session_token_check(name@) is Ok),
                Err(SandboxManifestError::InvalidServicePort { field, value }) => session_token_check(
                    name@,
                ) is Ok && ((!valid_port(port) && field@ == "port"@ && value == port) || (valid_port(
                    port,
                ) && !valid_port(target_port) && field@ == "targetPort"@ && value == target_port)),
                Err(_) => false,
            },
    {
        if validate_session_token(name).is_err() {
            return Err(SandboxManifestError::InvalidServicePortName);
        }
        if !(1 <= port && port <= 65535) {
            return Err(SandboxManifestError::InvalidServicePort { field: "port", value: port });
        }
        if !(1 <= target_port && target_port <= 65535) {
            return Err(SandboxManifestError::InvalidServicePort { field: "targetPort", value: target_port });
        }
        Ok(SandboxServicePortConfig { name: string_of(name), port, target_port })
    }

    /// Borrow the port name.
    pub fn name(&self) -> (r: &str)
        ensures
            r@ == self@.0,
    {
        self.name.as_str()
    }

    /// The service port.
    pub fn port(&self) -> (r: i32)
        ensures
            r == self@.1,
            valid_port(r),
    {
        proof {
            use_type_invariant(self);
        }
        self.port
    }

    /// The target port on the pods.
    pub fn target_port(&self) -> (r: i32)
        ensures
            r == self@.2,
            valid_port(r),
    {
        proof {
            use_type_invariant(self);
        }
        self.target_port
    }
}

impl Clone for SandboxServicePortConfig {
    fn clone(&self) -> (r: Self)
        ensures
            r@ == self@,
    {
        proof {
            use_type_invariant(self);
        }
        SandboxServicePortConfig { name: self.name.clone(), port: self.port, target_port: self.target_port }
    }
}

/// Why a plan cannot give a sandbox object of a given kind, in the order the
/// checks apply: the resource, the selector labels, the ownership labels, the
/// audit annotations.
pub open spec fn sandbox_failure(
    plan: SessionPlan,
    kind: Seq<char>,
    e: SandboxManifestError,
) -> bool {
    let count = of_kind(plan.resources(), kind).len();
    let deployment = kind == "Deployment"@;
    match e {
        SandboxManifestError::MissingDeploymentResource => deployment && count == 0,
        SandboxManifestError::MultipleDeploymentResources => deployment && count >= 2,
        SandboxManifestError::MissingServiceResource => !deployment && count == 0,
        SandboxManifestError::MultipleServiceResources => !deployment && count >= 2,
        SandboxManifestError::MissingSelectorLabels => count == 1 && plan.labels().len() == 0,
        SandboxManifestError::MissingOwnershipLabel { key } => count == 1 && plan.labels().len() > 0
            && first_absent_ownership(plan.labels()) == Some(key@),
        SandboxManifestError::MissingAuditAnnotation { key } => count == 1 && plan.labels().len() > 0
            && first_absent_ownership(plan.labels()) is None && first_absent_audit(
            plan.annotations(),
        ) == Some(key@),
        _ => false,
    }
}

/// A plan gives a sandbox object of a given kind: exactly one planned resource
/// of that kind, selector labels, every ownership label, every audit annotation.
pub open spec fn sandbox_ready(plan: SessionPlan, kind: Seq<char>) -> bool {
    &&& of_kind(plan.resources(), kind).len() == 1
    &&& plan.labels().len() > 0
    &&& first_absent_ownership(plan.labels()) is None
    &&& first_absent_audit(plan.annotations()) is None
}

/// Metadata of the sandbox object of a given kind for `plan`: named after the
/// planned resource, with the carried labels and annotations.
pub open spec fn sandbox_metadata(plan: SessionPlan, kind: Seq<char>, m: SandboxObjectMetadata) -> bool {
    let resource = of_kind(plan.resources(), kind)[0];
    &&& m.name@ == resource@.2
    &&& m.namespace@ == resource@.0
    &&& views(m.labels@) == views(kept_labels(plan.labels()))
    &&& views(m.annotations@) == views(kept_annotations(plan.annotations()))
}

/// Checks shared by both manifests, returning the planned resource.
fn sandbox_resource<'a>(plan: &'a SessionPlan, kind: &str) -> (r: Result<&'a KubernetesResourceRef, SandboxManifestError>)
    requires
        kind@ == "Deployment"@ || kind@ == "Service"@,
    ensures
        match r {
            Ok(res) => sandbox_ready(*plan, kind@) && res@ == of_kind(plan.resources(), kind@)[0]@,
            Err(e) => sandbox_failure(*plan, kind@, e),
        },
{
    let resources = plan.planned_resources();
    let (count, first) = find_kind(resources, kind);
    let deployment = str_eq(kind, "Deployment");
    if count == 0 {
        if deployment {
            return Err(SandboxManifestError::MissingDeploymentResource);
        } else {
            return Err(SandboxManifestError::MissingServiceResource);
        }
    }
    if count > 1 {
        if deployment {
            return Err(SandboxManifestError::MultipleDeploymentResources);
        } else {
            return Err(SandboxManifestError::MultipleServiceResources);
        }
    }
    let labels = plan.planned_labels();
    if labels.len() == 0 {
        return Err(SandboxManifestError::MissingSelectorLabels);
    }
    if let Some(key) = missing_ownership_label(labels) {
        return Err(SandboxManifestError::MissingOwnershipLabel { key });
    }
    let annotations = plan.planned_annotations();
    if let Some(key) = missing_audit_annotation(annotations) {
        return Err(SandboxManifestError::MissingAuditAnnotation { key });
    }
    Ok(&resources[first])
}

/// What a generated Deployment manifest holds for a plan.
pub open spec fn deployment_manifest_ok(plan: SessionPlan, m: SandboxDeploymentManifest) -> bool {
    &&& sandbox_ready(plan, "Deployment"@)
    &&& m.api_version@ == "apps/v1"@
    &&& m.kind@ == "Deployment"@
    &&& sandbox_metadata(plan, "Deployment"@, m.metadata)
    &&& m.spec.replicas == 1
    &&& views(m.spec.selector.match_labels@) == views(kept_labels(plan.labels()))
    &&& views(m.spec.template.metadata.labels@) == views(kept_labels(plan.labels()))
    &&& views(m.spec.template.metadata.annotations@) == views(kept_annotations(plan.annotations()))
    &&& m.spec.template.spec.containers@.len() == 1
    &&& m.spec.template.spec.containers@[0].name@ == plan@.name
    &&& m.spec.template.spec.containers@[0].image@ == plan@.image
}

/// Generate a sandbox Kubernetes Deployment manifest from a dry-run session plan.
pub fn sandbox_deployment_manifest(plan: &SessionPlan) -> (r: Result<
    SandboxDeploymentManifest,
    SandboxManifestError,
>)
    ensures
        match r {
            Ok(m) => deployment_manifest_ok(*plan, m),
            Err(e) => sandbox_failure(*plan, "Deployment"@, e),
        },
{
    let deployment = sandbox_resource(plan, "Deployment")?;
    let labels = sandbox_labels(plan.planned_labels());
    let annotations = sandbox_annotations(plan.planned_annotations());
    let metadata = SandboxObjectMetadata {
        name: string_of(deployment.name()),
        namespace: string_of(deployment.namespace()),
        labels: copy_entries(&labels),
        annotations: copy_entries(&annotations),
    };
    let container = SandboxContainer {
        name: string_of(plan.name().as_str()),
        image: string_of(plan.image().as_str()),
    };
    let selector = SandboxLabelSelector { match_labels: copy_entries(&labels) };
    let template = SandboxPodTemplate {
        metadata: SandboxPodTemplateMetadata { labels, annotations },
        spec: SandboxPodSpec { containers: vec![container] },
    };
    Ok(
        SandboxDeploymentManifest {
            api_version: "apps/v1",
            kind: "Deployment",
            metadata,
            spec: SandboxDeploymentSpec { replicas: 1, selector, template },
        },
    )
}

/// Generate a sandbox Kubernetes Service manifest from a dry-run session plan,
/// with the default HTTP port.
pub fn sandbox_service_manifest(plan: &SessionPlan) -> (r: Result<
    SandboxServiceManifest,
    SandboxManifestError,
>)
    ensures
        service_result(*plan, http_default_port(), r),
{
    sandbox_service_manifest_with_port(plan, SandboxServicePortConfig::http_default())
}

/// What a generated Service manifest holds for a plan and port settings.
pub open spec fn service_manifest_ok(
    plan: SessionPlan,
    port: (Seq<char>, i32, i32),
    m: SandboxServiceManifest,
) -> bool {
    &&& sandbox_ready(plan, "Service"@)
    &&& m.api_version@ == "v1"@
    &&& m.kind@ == "Service"@
    &&& sandbox_metadata(plan, "Service"@, m.metadata)
    &&& views(m.spec.selector@) == views(kept_labels(plan.labels()))
    &&& m.spec.ports@.len() == 1
    &&& m.spec.ports@[0].name@ == port.0
    &&& m.spec.ports@[0].port == port.1
    &&& m.spec.ports@[0].target_port == port.2
}

/// What generating a Service manifest for a plan and port settings gives: the
/// manifest, or the reason the plan has no single sandbox Service.
pub open spec fn service_result(
    plan: SessionPlan,
    port: (Seq<char>, i32, i32),
    r: Result<SandboxServiceManifest, SandboxManifestError>,
) -> bool {
    match r {
        Ok(m) => service_manifest_ok(plan, port, m),
        Err(e) => sandbox_failure(plan, "Service"@, e),
    }
}

/// The default Service manifest is the one generated with the default port
/// settings: whatever the plan, the two give the same manifest or the same
/// error.
pub proof fn lemma_default_service_is_http_default(
    plan: SessionPlan,
    config: SandboxServicePortConfig,
    r: Result<SandboxServiceManifest, SandboxManifestError>,
)
    requires
        config@ == http_default_port(),
    ensures
        service_result(plan, http_default_port(), r) == service_result(plan, config@, r),
{
}

/// Generate a sandbox Kubernetes Service manifest with explicit port settings.
pub fn sandbox_service_manifest_with_port(
    plan: &SessionPlan,
    port_config: SandboxServicePortConfig,
) -> (r: Result<SandboxServiceManifest, SandboxManifestError>)
    ensures
        service_result(*plan, port_config@, r),
{
    let service = sandbox_resource(plan, "Service")?;
    let labels = sandbox_labels(plan.planned_labels());
    let annotations = sandbox_annotations(plan.planned_annotations());
    let metadata = SandboxObjectMetadata {
        name: string_of(service.name()),
        namespace: string_of(service.namespace()),
        labels: copy_entries(&labels),
        annotations,
    };
    let port = SandboxServicePort {
        name: string_of(port_config.name()),
        port: port_config.port(),
        target_port: port_config.target_port(),
    };
    Ok(
        SandboxServiceManifest {
            api_version: "v1",
            kind: "Service",
            metadata,
            spec: SandboxServiceSpec { selector: labels, ports: vec![port] },
        },
    )
}

/// The sandbox objects of one plan fit together: the Deployment selects its
/// own pods, and the Service selects exactly those pods, whatever its port.
pub proof fn lemma_sandbox_service_selects_sandbox_pods(
    plan: SessionPlan,
    port: (Seq<char>, i32, i32),
    d: SandboxDeploymentManifest,
    s: SandboxServiceManifest,
)
    requires
        deployment_manifest_ok(plan, d),
        service_manifest_ok(plan, port, s),
    ensures
        views(d.spec.selector.match_labels@) == views(d.spec.template.metadata.labels@),
        views(s.spec.selector@) == views(d.spec.template.metadata.labels@),
{
}

/// A label key that sandbox objects carry: the four Kply ownership labels and
/// the four generic application identity labels.
pub open spec fn sandbox_label_key(k: Seq<char>) -> bool {
    ||| k == "kply.dev/app"@
    ||| k == "kply.dev/managed-by"@
    ||| k == "kply.dev/session-id"@
    ||| k == "kply.dev/session-name"@
    ||| k == "app.kubernetes.io/component"@
    ||| k == "app.kubernetes.io/instance"@
    ||| k == "app.kubernetes.io/name"@
    ||| k == "app.kubernetes.io/part-of"@
}

/// Of the planned labels, the sandbox keeps exactly those whose keys are
/// ownership or application identity labels, and nothing else.
pub proof fn lemma_kept_labels_are_sandbox_labels(s: Seq<MetadataEntry>)
    ensures
        forall|i: int| 0 <= i < s.len() ==> (kept_labels(s).contains(#[trigger] s[i])
            <==> sandbox_label_key(s[i]@.0)),
        forall|j: int| 0 <= j < kept_labels(s).len() ==> sandbox_label_key(#[trigger] kept_labels(s)[j]@.0),
{
    let keep = |e: MetadataEntry| preserved_label(e@.0);
    assert(kept_labels(s) == s.filter(keep));
    assert forall|j: int| 0 <= j < kept_labels(s).len() implies sandbox_label_key(#[trigger] kept_labels(s)[j]@.0) by {
        s.lemma_filter_pred(keep, j);
    }
    assert forall|i: int| 0 <= i < s.len() implies (kept_labels(s).contains(#[trigger] s[i])
        <==> sandbox_label_key(s[i]@.0)) by {
        if sandbox_label_key(s[i]@.0) {
            s.lemma_filter_contains(keep, i);
        }
        if kept_labels(s).contains(s[i]) {
            let j = choose|j: int| 0 <= j < kept_labels(s).len() && kept_labels(s)[j] == s[i];
            s.lemma_filter_pred(keep, j);
        }
    }
}

/// The sandbox Deployment and Service carry every planned label whose key is
/// an ownership or application identity label, with its planned value: on
/// the Deployment's metadata, selector and pod template, and on the Service's
/// metadata and selector.
pub proof fn lemma_sandbox_manifests_carry_labels(
    plan: SessionPlan,
    d: SandboxDeploymentManifest,
    port: (Seq<char>, i32, i32),
    sv: SandboxServiceManifest,
    i: int,
)
    requires
        deployment_manifest_ok(plan, d),
        service_manifest_ok(plan, port, sv),
        0 <= i < plan.labels().len(),
        sandbox_label_key(plan.labels()[i]@.0),
    ensures
        views(d.metadata.labels@).contains(plan.labels()[i]@),
        views(d.spec.selector.match_labels@).contains(plan.labels()[i]@),
        views(d.spec.template.metadata.labels@).contains(plan.labels()[i]@),
        views(sv.metadata.labels@).contains(plan.labels()[i]@),
        views(sv.spec.selector@).contains(plan.labels()[i]@),
{
    let s = plan.labels();
    let k = kept_labels(s);
    lemma_kept_labels_are_sandbox_labels(s);
    assert(k.contains(s[i]));
    let j = choose|j: int| 0 <= j < k.len() && k[j] == s[i];
    assert(views(k)[j] == s[i]@);
    assert(views(k).contains(s[i]@));
}

} // verus!
