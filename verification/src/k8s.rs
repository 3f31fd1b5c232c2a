//! Cluster facts in plain form: discovery and mutation errors, rollout
//! phases, and read-only summaries of Kubernetes objects, with the decisions
//! Kply takes on them.

use vstd::prelude::*;
use crate::ids::WorkloadRef;
use crate::order::{push_str_key, stable_sort_by_key, stably_sorted_of, str_key, Keyed, key_lt};
use crate::text::{chars_of, push_signed_decimal, push_str, signed_decimal, str_eq, string_of};

verus! {

/// Machine-readable read-only Kubernetes discovery error code.
#[derive(Debug, Clone, Copy, PartialEq, Eq, Structural)]
pub enum DiscoveryErrorCode {
    /// Kubeconfig could not be found or read.
    MissingKubeconfig,
    /// Kubernetes denied a read-only API request.
    ForbiddenAccess,
    /// The requested workload was not present in discovered objects.
    MissingWorkload,
    /// Kubeconfig was present but invalid or incomplete.
    KubernetesConfig,
    /// Kubernetes returned a non-RBAC API error.
    KubernetesApi,
}

impl DiscoveryErrorCode {
    /// The stable snake_case code name.
    pub open spec fn name(self) -> Seq<char> {
        match self {
            DiscoveryErrorCode::MissingKubeconfig => "missing_kubeconfig"@,
            DiscoveryErrorCode::ForbiddenAccess => "forbidden_access"@,
            DiscoveryErrorCode::MissingWorkload => "missing_workload"@,
            DiscoveryErrorCode::KubernetesConfig => "kubernetes_config"@,
            DiscoveryErrorCode::KubernetesApi => "kubernetes_api"@,
        }
    }

    /// Return the stable snake_case string form of this code.
    pub fn as_str(self) -> (r: &'static str)
        ensures
            r@ == self.name(),
    {
        match self {
            DiscoveryErrorCode::MissingKubeconfig => "missing_kubeconfig",
            DiscoveryErrorCode::ForbiddenAccess => "forbidden_access",
            DiscoveryErrorCode::MissingWorkload => "missing_workload",
            DiscoveryErrorCode::KubernetesConfig => "kubernetes_config",
            DiscoveryErrorCode::KubernetesApi => "kubernetes_api",
        }
    }
}

/// Stable read-only Kubernetes discovery error for users and agents.
#[derive(Debug, Clone, PartialEq, Eq)]
pub struct DiscoveryError {
    /// Machine-readable error code.
    pub code: DiscoveryErrorCode,
    /// Human-readable remediation-oriented message.
    pub message: String,
}

/// The message for a workload that discovery did not find.
pub open spec fn missing_workload_text(w: (Seq<char>, Seq<char>, Seq<char>)) -> Seq<char> {
    "workload "@ + w.0 + "/"@ + w.1 + "/"@ + w.2 + " was not found during read-only discovery"@
}

impl DiscoveryError {
    /// Build a clear error for a requested workload missing from discovery.
    pub fn missing_workload(workload: &WorkloadRef) -> (r: Self)
        ensures
            r.code == DiscoveryErrorCode::MissingWorkload,
            r.message@ == missing_workload_text(workload@),
    {
        let mut message = string_of("workload ");
        push_str(&mut message, workload.namespace());
        push_str(&mut message, "/");
        push_str(&mut message, workload.kind());
        push_str(&mut message, "/");
        push_str(&mut message, workload.name());
        push_str(&mut message, " was not found during read-only discovery");
        DiscoveryError { code: DiscoveryErrorCode::MissingWorkload, message }
    }

    /// The message of this error.
    pub fn to_string(&self) -> (r: String)
        ensures
            r@ == self.message@,
    {
        self.message.clone()
    }
}

/// Machine-readable Kubernetes mutation error code.
#[derive(Debug, Clone, Copy, PartialEq, Eq, Structural)]
pub enum MutationErrorCode {
    /// Kubeconfig could not be found or read.
    MissingKubeconfig,
    /// Kubernetes denied a mutating API request.
    ForbiddenAccess,
    /// Kubeconfig was present but invalid or incomplete.
    KubernetesConfig,
    /// Kubernetes returned a non-RBAC API error.
    KubernetesApi,
}

impl MutationErrorCode {
    /// The stable snake_case code name.
    pub open spec fn name(self) -> Seq<char> {
        match self {
            MutationErrorCode::MissingKubeconfig => "missing_kubeconfig"@,
            MutationErrorCode::ForbiddenAccess => "forbidden_access"@,
            MutationErrorCode::KubernetesConfig => "kubernetes_config"@,
            MutationErrorCode::KubernetesApi => "kubernetes_api"@,
        }
    }

    /// Return the stable snake_case string form of this code.
    pub fn as_str(self) -> (r: &'static str)
        ensures
            r@ == self.name(),
    {
        match self {
            MutationErrorCode::MissingKubeconfig => "missing_kubeconfig",
            MutationErrorCode::ForbiddenAccess => "forbidden_access",
            MutationErrorCode::KubernetesConfig => "kubernetes_config",
            MutationErrorCode::KubernetesApi => "kubernetes_api",
        }
    }
}

/// Stable Kubernetes mutation error for users and agents.
#[derive(Debug, Clone, PartialEq, Eq)]
pub struct MutationError {
    /// Machine-readable error code.
    pub code: MutationErrorCode,
    /// Human-readable remediation-oriented message.
    pub message: String,
}

impl MutationError {
    /// The message of this error.
    pub fn to_string(&self) -> (r: String)
        ensures
            r@ == self.message@,
    {
        self.message.clone()
    }
}

/// Why kubeconfig could not be resolved, as plain values.
#[derive(Debug, Clone, PartialEq, Eq)]
pub enum KubeconfigFailure {
    /// No kubeconfig path could be found.
    NotFound,
    /// The kubeconfig at `path` (as displayed) could not be read.
    Unreadable { path: String },
    /// Any other failure, with its description.
    Invalid { description: String },
}

/// The status that the API server answered a failed request with.
#[derive(Debug, Clone, PartialEq, Eq)]
pub struct ApiStatus {
    /// HTTP status code.
    pub code: u16,
    /// Machine-readable reason, such as `Forbidden`.
    pub reason: String,
    /// Human-readable message.
    pub message: String,
}

/// A failed Kubernetes request, as plain values: the API server's status
/// when it answered, and the error's description.
#[derive(Debug, Clone, PartialEq, Eq)]
pub struct ApiFailure {
    /// The API server's status, when the request reached it.
    pub status: Option<ApiStatus>,
    /// The error's description.
    pub description: String,
}

/// The API server denied access: unauthorized or forbidden, by code or reason.
pub open spec fn access_denied(s: ApiStatus) -> bool {
    s.code == 401 || s.code == 403 || s.reason@ == "Unauthorized"@ || s.reason@ == "Forbidden"@
}

/// The reason given for denied access: the server's message, or a generic one.
pub open spec fn denial_detail(s: ApiStatus) -> Seq<char> {
    if s.message@.len() == 0 {
        "Kubernetes RBAC denied the request"@
    } else {
        s.message@
    }
}

/// A failure denies access.
pub open spec fn failure_denied(f: ApiFailure) -> bool {
    f.status matches Some(s) && access_denied(s)
}

/// The message for a failed request of `operation`: denied access with its
/// reason, or the failure's description.
pub open spec fn api_failure_text(operation: Seq<char>, f: ApiFailure) -> Seq<char> {
    match f.status {
        Some(s) => if access_denied(s) {
            operation + " was forbidden by Kubernetes: "@ + denial_detail(s)
        } else {
            operation + " failed: "@ + f.description@
        },
        None => operation + " failed: "@ + f.description@,
    }
}

/// Decide [`access_denied`].
fn is_access_denied(s: &ApiStatus) -> (r: bool)
    ensures
        r == access_denied(*s),
{
    s.code == 401 || s.code == 403 || str_eq(s.reason.as_str(), "Unauthorized") || str_eq(
        s.reason.as_str(),
        "Forbidden",
    )
}

/// Compute [`api_failure_text`], and whether the failure denies access.
fn api_failure_message(operation: &str, f: &ApiFailure) -> (r: (bool, String))
    ensures
        r.0 == failure_denied(*f),
        r.1@ == api_failure_text(operation@, *f),
{
    let mut m = string_of(operation);
    match &f.status {
        Some(s) => {
            if is_access_denied(s) {
                push_str(&mut m, " was forbidden by Kubernetes: ");
                if chars_of(s.message.as_str()).len() == 0 {
                    push_str(&mut m, "Kubernetes RBAC denied the request");
                } else {
                    push_str(&mut m, s.message.as_str());
                }
                return (true, m);
            }
        },
        None => {},
    }
    push_str(&mut m, " failed: ");
    push_str(&mut m, f.description.as_str());
    (false, m)
}

/// The message for a kubeconfig that could not be found.
pub open spec fn kubeconfig_not_found_text() -> Seq<char> {
    "kubeconfig was not found; set KUBECONFIG or create ~/.kube/config"@
}

/// The message for a kubeconfig that could not be read, without its path.
pub open spec fn kubeconfig_unreadable_text() -> Seq<char> {
    "kubeconfig could not be read at the configured path; set KUBECONFIG or create ~/.kube/config"@
}

impl DiscoveryError {
    /// Classify kubeconfig resolution errors: a missing or unreadable file
    /// (naming its path), or an invalid one (with its description).
    pub fn from_kubeconfig_error(error: &KubeconfigFailure) -> (r: Self)
        ensures
            match error {
                KubeconfigFailure::NotFound => r.code == DiscoveryErrorCode::MissingKubeconfig
                    && r.message@ == kubeconfig_not_found_text(),
                KubeconfigFailure::Unreadable { path } => r.code == DiscoveryErrorCode::MissingKubeconfig
                    && r.message@ == "kubeconfig could not be read at "@ + path@
                    + "; set KUBECONFIG or create ~/.kube/config"@,
                KubeconfigFailure::Invalid { description } => r.code == DiscoveryErrorCode::KubernetesConfig
                    && r.message@ == "kubeconfig could not be resolved: "@ + description@,
            },
    {
        match error {
            KubeconfigFailure::NotFound => DiscoveryError {
                code: DiscoveryErrorCode::MissingKubeconfig,
                message: string_of("kubeconfig was not found; set KUBECONFIG or create ~/.kube/config"),
            },
            KubeconfigFailure::Unreadable { path } => {
                let mut m = string_of("kubeconfig could not be read at ");
                push_str(&mut m, path.as_str());
                push_str(&mut m, "; set KUBECONFIG or create ~/.kube/config");
                DiscoveryError { code: DiscoveryErrorCode::MissingKubeconfig, message: m }
            },
            KubeconfigFailure::Invalid { description } => {
                let mut m = string_of("kubeconfig could not be resolved: ");
                push_str(&mut m, description.as_str());
                DiscoveryError { code: DiscoveryErrorCode::KubernetesConfig, message: m }
            },
        }
    }

    /// Classify kubeconfig errors without exposing local filesystem paths or
    /// descriptions.
    pub fn from_kubeconfig_error_redacted(error: &KubeconfigFailure) -> (r: Self)
        ensures
            match error {
                KubeconfigFailure::Invalid { .. } => r.code == DiscoveryErrorCode::KubernetesConfig
                    && r.message@
                    == "kubeconfig could not be resolved; verify KUBECONFIG, context, cluster, and user configuration"@,
                _ => r.code == DiscoveryErrorCode::MissingKubeconfig && r.message@ == kubeconfig_unreadable_text(),
            },
    {
        match error {
            KubeconfigFailure::Invalid { .. } => DiscoveryError {
                code: DiscoveryErrorCode::KubernetesConfig,
                message: string_of(
                    "kubeconfig could not be resolved; verify KUBECONFIG, context, cluster, and user configuration",
                ),
            },
            _ => DiscoveryError {
                code: DiscoveryErrorCode::MissingKubeconfig,
                message: string_of(
                    "kubeconfig could not be read at the configured path; set KUBECONFIG or create ~/.kube/config",
                ),
            },
        }
    }

    /// Classify a failure to build a discovery client from resolved config.
    pub fn from_kubernetes_client_error(error: &ApiFailure) -> (r: Self)
        ensures
            r.code == DiscoveryErrorCode::KubernetesConfig,
            r.message@ == "Kubernetes client could not be constructed from kubeconfig: "@
                + error.description@,
    {
        let mut m = string_of("Kubernetes client could not be constructed from kubeconfig: ");
        push_str(&mut m, error.description.as_str());
        DiscoveryError { code: DiscoveryErrorCode::KubernetesConfig, message: m }
    }

    /// Classify a failed read-only request of `operation`: denied access, or
    /// another API failure, as [`api_failure_text`] words it.
    pub fn from_kubernetes_api_error(operation: &str, error: &ApiFailure) -> (r: Self)
        ensures
            r.code == (if failure_denied(*error) {
                DiscoveryErrorCode::ForbiddenAccess
            } else {
                DiscoveryErrorCode::KubernetesApi
            }),
            r.message@ == api_failure_text(operation@, *error),
    {
        let (denied, message) = api_failure_message(operation, error);
        let code = if denied {
            DiscoveryErrorCode::ForbiddenAccess
        } else {
            DiscoveryErrorCode::KubernetesApi
        };
        DiscoveryError { code, message }
    }
}

impl MutationError {
    /// Classify kubeconfig resolution errors for mutations, never naming the
    /// kubeconfig path.
    pub fn from_kubeconfig_error(error: &KubeconfigFailure) -> (r: Self)
        ensures
            match error {
                KubeconfigFailure::NotFound => r.code == MutationErrorCode::MissingKubeconfig
                    && r.message@ == kubeconfig_not_found_text(),
                KubeconfigFailure::Unreadable { .. } => r.code == MutationErrorCode::MissingKubeconfig
                    && r.message@ == kubeconfig_unreadable_text(),
                KubeconfigFailure::Invalid { description } => r.code == MutationErrorCode::KubernetesConfig
                    && r.message@ == "kubeconfig could not be resolved: "@ + description@,
            },
    {
        match error {
            KubeconfigFailure::NotFound => MutationError {
                code: MutationErrorCode::MissingKubeconfig,
                message: string_of("kubeconfig was not found; set KUBECONFIG or create ~/.kube/config"),
            },
            KubeconfigFailure::Unreadable { .. } => MutationError {
                code: MutationErrorCode::MissingKubeconfig,
                message: string_of(
                    "kubeconfig could not be read at the configured path; set KUBECONFIG or create ~/.kube/config",
                ),
            },
            KubeconfigFailure::Invalid { description } => {
                let mut m = string_of("kubeconfig could not be resolved: ");
                push_str(&mut m, description.as_str());
                MutationError { code: MutationErrorCode::KubernetesConfig, message: m }
            },
        }
    }

    /// Classify a failed mutating request of `operation`: denied access, or
    /// another API failure, as [`api_failure_text`] words it.
    pub fn from_kubernetes_api_error(operation: &str, error: &ApiFailure) -> (r: Self)
        ensures
            r.code == (if failure_denied(*error) {
                MutationErrorCode::ForbiddenAccess
            } else {
                MutationErrorCode::KubernetesApi
            }),
            r.message@ == api_failure_text(operation@, *error),
    {
        let (denied, message) = api_failure_message(operation, error);
        let code = if denied {
            MutationErrorCode::ForbiddenAccess
        } else {
            MutationErrorCode::KubernetesApi
        };
        MutationError { code, message }
    }

    /// Classify a failure to build a Kubernetes client from resolved config.
    pub fn from_kubernetes_client_error(error: &ApiFailure) -> (r: Self)
        ensures
            r.code == MutationErrorCode::KubernetesConfig,
            r.message@ == "kubernetes client could not be created: "@ + error.description@,
    {
        let mut m = string_of("kubernetes client could not be created: ");
        push_str(&mut m, error.description.as_str());
        MutationError { code: MutationErrorCode::KubernetesConfig, message: m }
    }
}

/// Basic Deployment rollout phase.
#[derive(Debug, Clone, Copy, PartialEq, Eq, Structural)]
pub enum DeploymentRolloutPhase {
    /// Status does not contain enough information to classify the rollout.
    Unknown,
    /// Rollout is still converging.
    Progressing,
    /// Rollout has no available replicas.
    Unavailable,
    /// Rollout is fully updated and available.
    Complete,
}

impl DeploymentRolloutPhase {
    /// The stable snake_case phase name.
    pub open spec fn name(self) -> Seq<char> {
        match self {
            DeploymentRolloutPhase::Unknown => "unknown"@,
            DeploymentRolloutPhase::Progressing => "progressing"@,
            DeploymentRolloutPhase::Unavailable => "unavailable"@,
            DeploymentRolloutPhase::Complete => "complete"@,
        }
    }

    /// Return the stable snake_case string form of this rollout phase.
    pub fn as_str(self) -> (r: &'static str)
        ensures
            r@ == self.name(),
    {
        match self {
            DeploymentRolloutPhase::Unknown => "unknown",
            DeploymentRolloutPhase::Progressing => "progressing",
            DeploymentRolloutPhase::Unavailable => "unavailable",
            DeploymentRolloutPhase::Complete => "complete",
        }
    }
}

/// Read-only probe handler metadata.
#[derive(Debug, Clone, PartialEq, Eq)]
pub enum ProbeHandlerSummary {
    /// Exec probe without command payload.
    Exec,
    /// HTTP GET probe metadata without header values.
    HttpGet {
        /// Optional HTTP host override.
        host: Option<String>,
        /// Optional HTTP request path.
        path: Option<String>,
        /// HTTP target port as a string, preserving named ports.
        port: String,
        /// Optional HTTP scheme.
        scheme: Option<String>,
        /// Number of configured HTTP headers.
        header_count: usize,
    },
    /// TCP socket probe metadata.
    TcpSocket {
        /// Optional TCP host override.
        host: Option<String>,
        /// TCP target port as a string, preserving named ports.
        port: String,
    },
    /// gRPC probe metadata.
    Grpc {
        /// gRPC health check port.
        port: i32,
        /// Optional gRPC service name.
        service: Option<String>,
    },
    /// Probe has no supported handler metadata.
    Unknown,
}

/// An HTTP GET probe handler as the API gives it.
#[derive(Debug, Clone, PartialEq, Eq)]
pub struct HttpGetHandler {
    /// Optional HTTP host override.
    pub host: Option<String>,
    /// Optional HTTP request path.
    pub path: Option<String>,
    /// Target port.
    pub port: PortValue,
    /// Optional HTTP scheme.
    pub scheme: Option<String>,
    /// Number of configured HTTP headers.
    pub header_count: usize,
}

/// A TCP socket probe handler as the API gives it.
#[derive(Debug, Clone, PartialEq, Eq)]
pub struct TcpSocketHandler {
    /// Optional TCP host override.
    pub host: Option<String>,
    /// Target port.
    pub port: PortValue,
}

/// A gRPC probe handler as the API gives it.
#[derive(Debug, Clone, PartialEq, Eq)]
pub struct GrpcHandler {
    /// Health check port.
    pub port: i32,
    /// Optional service name.
    pub service: Option<String>,
}

/// The handlers a probe sets; the API allows one, but nothing stops a
/// document from setting several.
#[derive(Debug, Clone, PartialEq, Eq)]
pub struct ProbeHandlers {
    /// The HTTP GET handler, if set.
    pub http_get: Option<HttpGetHandler>,
    /// The TCP socket handler, if set.
    pub tcp_socket: Option<TcpSocketHandler>,
    /// The gRPC handler, if set.
    pub grpc: Option<GrpcHandler>,
    /// Whether an exec handler is set; its command is never read.
    pub has_exec: bool,
}

/// `s` summarizes the handlers `h`: the first set of HTTP GET, TCP socket,
/// gRPC and exec, in that order, or `Unknown` when none is set.
pub open spec fn summarizes_handlers(h: ProbeHandlers, s: ProbeHandlerSummary) -> bool {
    match h.http_get {
        Some(g) => s matches ProbeHandlerSummary::HttpGet { host, path, port, scheme, header_count }
            && host == g.host && path == g.path && port@ == port_text(g.port)
            && scheme == g.scheme && header_count == g.header_count,
        None => match h.tcp_socket {
            Some(t) => s matches ProbeHandlerSummary::TcpSocket { host, port }
                && host == t.host && port@ == port_text(t.port),
            None => match h.grpc {
                Some(g) => s == ProbeHandlerSummary::Grpc { port: g.port, service: g.service },
                None => if h.has_exec {
                    s == ProbeHandlerSummary::Exec
                } else {
                    s == ProbeHandlerSummary::Unknown
                },
            },
        },
    }
}

/// Summarize a probe's handler without reading commands or header values.
pub fn probe_handler_summary(handlers: ProbeHandlers) -> (r: ProbeHandlerSummary)
    ensures
        summarizes_handlers(handlers, r),
{
    if let Some(g) = handlers.http_get {
        let port = format_int_or_string(&g.port);
        return ProbeHandlerSummary::HttpGet {
            host: g.host,
            path: g.path,
            port,
            scheme: g.scheme,
            header_count: g.header_count,
        };
    }
    if let Some(t) = handlers.tcp_socket {
        let port = format_int_or_string(&t.port);
        return ProbeHandlerSummary::TcpSocket { host: t.host, port };
    }
    if let Some(g) = handlers.grpc {
        return ProbeHandlerSummary::Grpc { port: g.port, service: g.service };
    }
    if handlers.has_exec {
        ProbeHandlerSummary::Exec
    } else {
        ProbeHandlerSummary::Unknown
    }
}

/// Summary of one Kubernetes resource selected for deletion.
#[derive(Debug, Clone, PartialEq, Eq)]
pub struct ResourceDeletionSummary {
    /// Kubernetes resource kind selected for deletion.
    pub kind: String,
    /// Kubernetes namespace containing the selected resource.
    pub namespace: String,
    /// Kubernetes resource name selected for deletion.
    pub name: String,
}

/// Read-only Kubernetes cluster facts resolved from kubeconfig.
#[derive(Debug, Clone, PartialEq, Eq)]
pub struct ClusterInfo {
    /// Kubernetes API server URL selected by kubeconfig resolution.
    pub cluster_url: String,
    /// Default namespace selected by the active kubeconfig context.
    pub default_namespace: String,
}

/// Read-only summary of a Kubernetes Namespace.
#[derive(Debug, Clone, PartialEq, Eq)]
pub struct NamespaceSummary {
    /// Namespace name.
    pub name: String,
}

/// Read-only summary of a Kubernetes Deployment.
#[derive(Debug, Clone, PartialEq, Eq)]
pub struct DeploymentSummary {
    /// Deployment namespace.
    pub namespace: String,
    /// Deployment name.
    pub name: String,
    /// Desired replica count from the Deployment spec.
    pub replicas: Option<i32>,
    /// Observed available replicas from Deployment status.
    pub available_replicas: Option<i32>,
    /// Observed ready replicas from Deployment status.
    pub ready_replicas: Option<i32>,
    /// Observed updated replicas from Deployment status.
    pub updated_replicas: Option<i32>,
    /// Declared container images in pod template order.
    pub images: Vec<String>,
    /// Pod template labels in deterministic key order.
    pub pod_template_labels: Vec<LabelSelectorEntry>,
    /// Readiness and liveness probes in pod template container order.
    pub probes: Vec<ContainerProbeSummary>,
    /// Resource requests and limits in pod template container order.
    pub resources: Vec<ContainerResourceSummary>,
    /// Basic rollout status derived from Deployment status.
    pub rollout: DeploymentRolloutSummary,
}

/// Read-only summary of one Kply sandbox session discovered from cluster metadata.
#[derive(Debug, Clone, PartialEq, Eq)]
pub struct SessionSummary {
    /// Session id from `kply.dev/session-id`.
    pub id: String,
    /// Optional human-readable session name from `kply.dev/session-name`.
    pub name: Option<String>,
    /// Namespace containing the session workload.
    pub namespace: String,
    /// Optional configured app name from `kply.dev/app`.
    pub app: Option<String>,
    /// Optional session lifecycle status from `kply.dev/session-status`.
    pub status: Option<String>,
    /// Workload kind used as the session anchor.
    pub workload_kind: String,
    /// Workload name used as the session anchor.
    pub workload_name: String,
}

/// Basic rollout status for a Kubernetes Deployment.
#[derive(Debug, Clone, PartialEq, Eq)]
pub struct DeploymentRolloutSummary {
    /// Rollout phase derived from observed Deployment status.
    pub phase: DeploymentRolloutPhase,
    /// Desired Deployment generation from object metadata.
    pub generation: Option<i64>,
    /// Observed Deployment generation from status.
    pub observed_generation: Option<i64>,
    /// Desired replica count from the Deployment spec.
    pub desired_replicas: Option<i32>,
    /// Observed ready replicas from Deployment status.
    pub ready_replicas: Option<i32>,
    /// Observed available replicas from Deployment status.
    pub available_replicas: Option<i32>,
    /// Observed updated replicas from Deployment status.
    pub updated_replicas: Option<i32>,
    /// Observed unavailable replicas from Deployment status.
    pub unavailable_replicas: Option<i32>,
    /// Deployment conditions in manifest order.
    pub conditions: Vec<DeploymentConditionSummary>,
}

/// Read-only summary of one Deployment condition.
#[derive(Debug, Clone, PartialEq, Eq)]
pub struct DeploymentConditionSummary {
    /// Condition type, such as `Available` or `Progressing`.
    pub type_: String,
    /// Condition status, such as `True`, `False`, or `Unknown`.
    pub status: String,
    /// Optional condition reason.
    pub reason: Option<String>,
    /// Optional condition message.
    pub message: Option<String>,
}

/// Read-only readiness and liveness probe metadata for one container.
#[derive(Debug, Clone, PartialEq, Eq)]
pub struct ContainerProbeSummary {
    /// Container name.
    pub container_name: String,
    /// Readiness probe metadata when configured.
    pub readiness: Option<ProbeSummary>,
    /// Liveness probe metadata when configured.
    pub liveness: Option<ProbeSummary>,
}

/// Read-only probe metadata without sensitive payload values.
#[derive(Debug, Clone, PartialEq, Eq)]
pub struct ProbeSummary {
    /// Probe handler type and safe route metadata.
    pub handler: ProbeHandlerSummary,
    /// Initial delay before probing in seconds.
    pub initial_delay_seconds: Option<i32>,
    /// Probe period in seconds.
    pub period_seconds: Option<i32>,
    /// Probe timeout in seconds.
    pub timeout_seconds: Option<i32>,
    /// Consecutive success threshold.
    pub success_threshold: Option<i32>,
    /// Consecutive failure threshold.
    pub failure_threshold: Option<i32>,
    /// Probe-specific termination grace period in seconds.
    pub termination_grace_period_seconds: Option<i64>,
}

/// Read-only resource request and limit metadata for one container.
#[derive(Debug, Clone, PartialEq, Eq)]
pub struct ContainerResourceSummary {
    /// Container name.
    pub container_name: String,
    /// Resource requests in deterministic resource-name order.
    pub requests: Vec<ResourceQuantitySummary>,
    /// Resource limits in deterministic resource-name order.
    pub limits: Vec<ResourceQuantitySummary>,
}

/// The resource summary of a container: only containers that request or
/// limit some resource are summarized.
pub fn container_resource_summary(
    container_name: String,
    requests: Vec<ResourceQuantitySummary>,
    limits: Vec<ResourceQuantitySummary>,
) -> (r: Option<ContainerResourceSummary>)
    ensures
        r is Some <==> (requests@.len() > 0 || limits@.len() > 0),
        r matches Some(c) ==> c.container_name == container_name && c.requests == requests
            && c.limits == limits,
{
    if requests.len() == 0 && limits.len() == 0 {
        None
    } else {
        Some(ContainerResourceSummary { container_name, requests, limits })
    }
}

/// One Kubernetes resource quantity value.
#[derive(Debug, Clone, PartialEq, Eq)]
pub struct ResourceQuantitySummary {
    /// Resource name, such as `cpu` or `memory`.
    pub name: String,
    /// Kubernetes quantity string.
    pub quantity: String,
}

/// Read-only summary of a Kubernetes Service.
#[derive(Debug, Clone, PartialEq, Eq)]
pub struct ServiceSummary {
    /// Service namespace.
    pub namespace: String,
    /// Service name.
    pub name: String,
    /// Service type, such as `ClusterIP`, `NodePort`, or `LoadBalancer`.
    pub service_type: Option<String>,
    /// Service selector labels in deterministic key order.
    pub selector: Vec<LabelSelectorEntry>,
    /// Declared Service ports in manifest order.
    pub ports: Vec<ServicePortSummary>,
}

/// One Service selector label.
#[derive(Debug, Clone, PartialEq, Eq)]
pub struct LabelSelectorEntry {
    /// Selector label key.
    pub key: String,
    /// Selector label value.
    pub value: String,
}

/// Read-only summary of one Kubernetes Service port.
#[derive(Debug, Clone, PartialEq, Eq)]
pub struct ServicePortSummary {
    /// Optional Service port name.
    pub name: Option<String>,
    /// Exposed Service port.
    pub port: i32,
    /// Optional app protocol for the Service port.
    pub app_protocol: Option<String>,
    /// Transport protocol, usually `TCP`, `UDP`, or `SCTP`.
    pub protocol: Option<String>,
    /// Target port as a string, preserving named target ports.
    pub target_port: Option<String>,
}

/// Read-only summary of a Kubernetes Pod.
#[derive(Debug, Clone, PartialEq, Eq)]
pub struct PodSummary {
    /// Pod namespace.
    pub namespace: String,
    /// Pod name.
    pub name: String,
    /// Current Pod phase, such as `Running`, `Pending`, or `Failed`.
    pub phase: Option<String>,
    /// Node name where the Pod is scheduled.
    pub node_name: Option<String>,
    /// Pod IP assigned by Kubernetes.
    pub pod_ip: Option<String>,
    /// Declared container images in pod spec order.
    pub images: Vec<String>,
    /// Readiness and liveness probes in pod spec container order.
    pub probes: Vec<ContainerProbeSummary>,
    /// Resource requests and limits in pod spec container order.
    pub resources: Vec<ContainerResourceSummary>,
    /// Owner references in manifest order.
    pub owner_references: Vec<OwnerReferenceSummary>,
}

/// Read-only summary of a Kubernetes owner reference.
#[derive(Debug, Clone, PartialEq, Eq)]
pub struct OwnerReferenceSummary {
    /// Referenced owner kind.
    pub kind: String,
    /// Referenced owner name.
    pub name: String,
    /// Referenced owner uid.
    pub uid: String,
    /// Whether this owner reference is marked as the controlling owner.
    pub controller: Option<bool>,
}

/// Read-only summary of a Kubernetes Ingress.
#[derive(Debug, Clone, PartialEq, Eq)]
pub struct IngressSummary {
    /// Ingress namespace.
    pub namespace: String,
    /// Ingress name.
    pub name: String,
    /// Optional IngressClass name.
    pub ingress_class_name: Option<String>,
    /// Default backend service when configured.
    pub default_backend: Option<IngressBackendSummary>,
    /// Ingress rules in manifest order.
    pub rules: Vec<IngressRuleSummary>,
    /// TLS host groups in manifest order. Secret names are metadata only.
    pub tls: Vec<IngressTlsSummary>,
}

/// Read-only summary of an Ingress backend service.
#[derive(Debug, Clone, PartialEq, Eq)]
pub struct IngressBackendSummary {
    /// Backend Service name.
    pub service_name: String,
    /// Backend Service port as a string, preserving named ports.
    pub service_port: String,
}

/// A port given either by number or by name.
#[derive(Debug, Clone, PartialEq, Eq)]
pub enum PortValue {
    /// A port number.
    Number(i32),
    /// A named port.
    Name(String),
}

/// The text of a port: its number in base 10, or its name.
pub open spec fn port_text(p: PortValue) -> Seq<char> {
    match p {
        PortValue::Number(n) => signed_decimal(n as int),
        PortValue::Name(s) => s@,
    }
}

/// The text of a port given by number or by name.
pub fn format_int_or_string(value: &PortValue) -> (r: String)
    ensures
        r@ == port_text(*value),
{
    match value {
        PortValue::Number(n) => {
            let mut s = String::new();
            push_signed_decimal(&mut s, *n);
            s
        },
        PortValue::Name(name) => name.clone(),
    }
}

/// The port text of an Ingress backend: its name when it has one, else its
/// number in base 10.
pub open spec fn backend_port_text(name: Option<String>, number: Option<i32>) -> Option<Seq<char>> {
    match name {
        Some(n) => Some(n@),
        None => match number {
            Some(k) => Some(signed_decimal(k as int)),
            None => None,
        },
    }
}

/// Summarize an Ingress backend Service from its name and its port's name and
/// number; nothing when the port has neither.
pub fn ingress_backend_summary(
    service_name: &str,
    port_name: Option<String>,
    port_number: Option<i32>,
) -> (r: Option<IngressBackendSummary>)
    ensures
        r is Some <==> backend_port_text(port_name, port_number) is Some,
        r matches Some(b) ==> b.service_name@ == service_name@
            && Some(b.service_port@) == backend_port_text(port_name, port_number),
{
    let service_port = match port_name {
        Some(name) => name,
        None => match port_number {
            Some(k) => {
                let mut s = String::new();
                push_signed_decimal(&mut s, k);
                s
            },
            None => return None,
        },
    };
    Some(IngressBackendSummary { service_name: string_of(service_name), service_port })
}

/// Read-only summary of an Ingress host rule.
#[derive(Debug, Clone, PartialEq, Eq)]
pub struct IngressRuleSummary {
    /// Optional host matched by the rule.
    pub host: Option<String>,
    /// HTTP paths for the rule.
    pub paths: Vec<IngressPathSummary>,
}

/// Read-only summary of an Ingress HTTP path.
#[derive(Debug, Clone, PartialEq, Eq)]
pub struct IngressPathSummary {
    /// Optional matched path.
    pub path: Option<String>,
    /// Optional path type, such as `Prefix` or `Exact`.
    pub path_type: Option<String>,
    /// Backend service for the path when configured.
    pub backend: Option<IngressBackendSummary>,
}

/// Read-only summary of an Ingress TLS entry.
#[derive(Debug, Clone, PartialEq, Eq)]
pub struct IngressTlsSummary {
    /// TLS hosts in manifest order.
    pub hosts: Vec<String>,
    /// Referenced Secret name, kept as metadata only.
    pub secret_name: Option<String>,
}

/// Read-only summary of a Gateway API GatewayClass.
#[derive(Debug, Clone, PartialEq, Eq)]
pub struct GatewayClassSummary {
    /// GatewayClass name.
    pub name: String,
    /// Controller name responsible for this GatewayClass.
    pub controller_name: Option<String>,
    /// Optional human-readable description.
    pub description: Option<String>,
}

/// Read-only summary of a Gateway API Gateway.
#[derive(Debug, Clone, PartialEq, Eq)]
pub struct GatewaySummary {
    /// Gateway namespace.
    pub namespace: String,
    /// Gateway name.
    pub name: String,
    /// Referenced GatewayClass name.
    pub gateway_class_name: Option<String>,
    /// Gateway listeners in manifest order.
    pub listeners: Vec<GatewayListenerSummary>,
}

/// Read-only summary of a Gateway API Gateway listener.
#[derive(Debug, Clone, PartialEq, Eq)]
pub struct GatewayListenerSummary {
    /// Listener name.
    pub name: Option<String>,
    /// Optional listener hostname.
    pub hostname: Option<String>,
    /// Listener port.
    pub port: Option<i64>,
    /// Listener protocol.
    pub protocol: Option<String>,
}

/// Read-only summary of a Gateway API HTTPRoute.
#[derive(Debug, Clone, PartialEq, Eq)]
pub struct HttpRouteSummary {
    /// HTTPRoute namespace.
    pub namespace: String,
    /// HTTPRoute name.
    pub name: String,
    /// Hostnames matched by the HTTPRoute.
    pub hostnames: Vec<String>,
    /// Parent references in manifest order.
    pub parent_refs: Vec<RouteParentRefSummary>,
    /// Rules in manifest order.
    pub rules: Vec<HttpRouteRuleSummary>,
}

/// Read-only summary of a Gateway API parent reference.
#[derive(Debug, Clone, PartialEq, Eq)]
pub struct RouteParentRefSummary {
    /// Parent resource kind.
    pub kind: Option<String>,
    /// Parent resource namespace.
    pub namespace: Option<String>,
    /// Parent resource name.
    pub name: Option<String>,
    /// Optional section name on the parent resource.
    pub section_name: Option<String>,
}

/// Read-only summary of a Gateway API HTTPRoute rule.
#[derive(Debug, Clone, PartialEq, Eq)]
pub struct HttpRouteRuleSummary {
    /// Backend references in manifest order.
    pub backend_refs: Vec<HttpRouteBackendRefSummary>,
}

/// Read-only summary of a Gateway API HTTPRoute backend reference.
#[derive(Debug, Clone, PartialEq, Eq)]
pub struct HttpRouteBackendRefSummary {
    /// Backend resource kind.
    pub kind: Option<String>,
    /// Backend namespace.
    pub namespace: Option<String>,
    /// Backend name.
    pub name: Option<String>,
    /// Backend port.
    pub port: Option<i64>,
}

/// The value of an optional count, zero when absent.
pub open spec fn or_zero(o: Option<i32>) -> i32 {
    match o {
        Some(v) => v,
        None => 0,
    }
}

/// The rollout phase of a Deployment from its generations and replica counts:
/// unknown without a desired count; progressing while updated or available
/// counts are missing or the observed generation lags; unavailable when
/// replicas are wanted and none is available; complete when every count
/// matches the desired one and none is unavailable; progressing otherwise.
pub open spec fn rollout_phase(
    generation: Option<i64>,
    observed_generation: Option<i64>,
    desired_replicas: Option<i32>,
    ready_replicas: Option<i32>,
    available_replicas: Option<i32>,
    updated_replicas: Option<i32>,
    unavailable_replicas: Option<i32>,
) -> DeploymentRolloutPhase {
    match (desired_replicas, updated_replicas, available_replicas) {
        (None, _, _) => DeploymentRolloutPhase::Unknown,
        (Some(_), None, _) => DeploymentRolloutPhase::Progressing,
        (Some(_), Some(_), None) => DeploymentRolloutPhase::Progressing,
        (Some(desired), Some(updated), Some(available)) => {
            if generation is Some && observed_generation is Some && observed_generation->0
                < generation->0 {
                DeploymentRolloutPhase::Progressing
            } else if available == 0 && desired > 0 {
                DeploymentRolloutPhase::Unavailable
            } else if updated == desired && available == desired && or_zero(ready_replicas)
                == desired && or_zero(unavailable_replicas) == 0 {
                DeploymentRolloutPhase::Complete
            } else {
                DeploymentRolloutPhase::Progressing
            }
        },
    }
}

/// The observed generation of a Deployment lags behind its generation.
pub open spec fn generation_lags(generation: Option<i64>, observed_generation: Option<i64>) -> bool {
    match (generation, observed_generation) {
        (Some(g), Some(o)) => o < g,
        _ => false,
    }
}

/// What each rollout phase means for the counts a Deployment reports:
/// unknown exactly when no desired count is reported; complete exactly when
/// the controller has caught up, every updated, available and ready count
/// equals the desired one, and no replica is unavailable; unavailable exactly
/// when the controller has caught up, replicas are wanted, and the updated
/// count is known but none is available.
pub proof fn lemma_rollout_phase_meaning(
    generation: Option<i64>,
    observed_generation: Option<i64>,
    desired_replicas: Option<i32>,
    ready_replicas: Option<i32>,
    available_replicas: Option<i32>,
    updated_replicas: Option<i32>,
    unavailable_replicas: Option<i32>,
)
    ensures
        ({
            let phase = rollout_phase(
                generation,
                observed_generation,
                desired_replicas,
                ready_replicas,
                available_replicas,
                updated_replicas,
                unavailable_replicas,
            );
            &&& (phase == DeploymentRolloutPhase::Unknown <==> desired_replicas is None)
            &&& (phase == DeploymentRolloutPhase::Complete <==> {
                &&& desired_replicas is Some
                &&& !generation_lags(generation, observed_generation)
                &&& updated_replicas == desired_replicas
                &&& available_replicas == desired_replicas
                &&& (ready_replicas == desired_replicas || (ready_replicas is None
                    && desired_replicas == Some(0i32)))
                &&& (unavailable_replicas is None || unavailable_replicas == Some(0i32))
            })
            &&& (phase == DeploymentRolloutPhase::Unavailable <==> {
                &&& !generation_lags(generation, observed_generation)
                &&& desired_replicas matches Some(d) && d > 0
                &&& updated_replicas is Some
                &&& available_replicas == Some(0i32)
            })
        }),
{
}

/// Classify a Deployment rollout as [`rollout_phase`] describes.
pub fn deployment_rollout_phase(
    generation: Option<i64>,
    observed_generation: Option<i64>,
    desired_replicas: Option<i32>,
    ready_replicas: Option<i32>,
    available_replicas: Option<i32>,
    updated_replicas: Option<i32>,
    unavailable_replicas: Option<i32>,
) -> (r: DeploymentRolloutPhase)
    ensures
        r == rollout_phase(
            generation,
            observed_generation,
            desired_replicas,
            ready_replicas,
            available_replicas,
            updated_replicas,
            unavailable_replicas,
        ),
{
    let desired = match desired_replicas {
        None => return DeploymentRolloutPhase::Unknown,
        Some(d) => d,
    };
    let updated = match updated_replicas {
        None => return DeploymentRolloutPhase::Progressing,
        Some(u) => u,
    };
    let available = match available_replicas {
        None => return DeploymentRolloutPhase::Progressing,
        Some(a) => a,
    };
    if let (Some(g), Some(o)) = (generation, observed_generation) {
        if o < g {
            return DeploymentRolloutPhase::Progressing;
        }
    }
    if available == 0 && desired > 0 {
        return DeploymentRolloutPhase::Unavailable;
    }
    let ready = match ready_replicas {
        Some(v) => v,
        None => 0,
    };
    let unavailable = match unavailable_replicas {
        Some(v) => v,
        None => 0,
    };
    if updated == desired && available == desired && ready == desired && unavailable == 0 {
        return DeploymentRolloutPhase::Complete;
    }
    DeploymentRolloutPhase::Progressing
}

/// A summary describes the Deployment named by `w`.
pub open spec fn names_workload(d: DeploymentSummary, w: (Seq<char>, Seq<char>, Seq<char>)) -> bool {
    d.namespace@ == w.0 && d.name@ == w.2
}

/// Return the first discovered Deployment summary matching a requested
/// workload. A workload that is not a Deployment, or that no summary names,
/// is reported as missing.
pub fn require_deployment_workload<'a>(
    deployments: &'a [DeploymentSummary],
    workload: &WorkloadRef,
) -> (r: Result<&'a DeploymentSummary, DiscoveryError>)
    ensures
        match r {
            Ok(d) => workload@.1 == "Deployment"@ && exists|i: int|
                0 <= i < deployments@.len() && deployments@[i] == *d && names_workload(*d, workload@)
                && forall|j: int| 0 <= j < i ==> !names_workload(#[trigger] deployments@[j], workload@),
            Err(e) => e.code == DiscoveryErrorCode::MissingWorkload && e.message@
                == missing_workload_text(workload@) && (workload@.1 != "Deployment"@ || forall|j: int|
                0 <= j < deployments@.len() ==> !names_workload(#[trigger] deployments@[j], workload@)),
        },
{
    if !str_eq(workload.kind(), "Deployment") {
        return Err(DiscoveryError::missing_workload(workload));
    }
    let n = deployments.len();
    for i in 0..n
        invariant
            n == deployments@.len(),
            workload@.1 == "Deployment"@,
            forall|j: int| 0 <= j < i ==> !names_workload(#[trigger] deployments@[j], workload@),
    {
        let d = &deployments[i];
        if str_eq(d.namespace.as_str(), workload.namespace()) && str_eq(d.name.as_str(), workload.name()) {
            assert(deployments@[i as int] == *d);
            return Ok(d);
        }
    }
    Err(DiscoveryError::missing_workload(workload))
}

/// A Pod summary lists `w` among its direct owners, in `w`'s namespace.
pub open spec fn owned_by(pod: PodSummary, w: (Seq<char>, Seq<char>, Seq<char>)) -> bool {
    &&& pod.namespace@ == w.0
    &&& exists|i: int| 0 <= i < pod.owner_references@.len() && (#[trigger] pod.owner_references@[i]).kind@ == w.1
        && pod.owner_references@[i].name@ == w.2
}

/// Return true when a Pod has a direct owner reference to `workload`.
pub fn pod_is_owned_by_workload(pod: &PodSummary, workload: &WorkloadRef) -> (r: bool)
    ensures
        r == owned_by(*pod, workload@),
{
    if !str_eq(pod.namespace.as_str(), workload.namespace()) {
        return false;
    }
    let n = pod.owner_references.len();
    for i in 0..n
        invariant
            n == pod.owner_references@.len(),
            pod.namespace@ == workload@.0,
            forall|j: int| 0 <= j < i ==> !((#[trigger] pod.owner_references@[j]).kind@ == workload@.1
                && pod.owner_references@[j].name@ == workload@.2),
    {
        let o = &pod.owner_references[i];
        if str_eq(o.kind.as_str(), workload.kind()) && str_eq(o.name.as_str(), workload.name()) {
            assert(pod.owner_references@[i as int] == *o);
            return true;
        }
    }
    false
}

/// The label selector that picks out the resources of one Kply session.
pub open spec fn session_selector_text(session_id: Seq<char>) -> Seq<char> {
    "kply.dev/managed-by=kply,kply.dev/session-id="@ + session_id
}

/// Build the label selector that picks out the resources of one Kply session.
pub fn session_label_selector(session_id: &str) -> (r: String)
    ensures
        r@ == session_selector_text(session_id@),
{
    let mut r = string_of("kply.dev/managed-by=kply,kply.dev/session-id=");
    push_str(&mut r, session_id);
    r
}

/// The value of the first entry of `entries` with key `key`.
pub open spec fn lookup(entries: Seq<LabelSelectorEntry>, key: Seq<char>) -> Option<Seq<char>>
    decreases entries.len(),
{
    if entries.len() == 0 {
        None
    } else if entries[0].key@ == key {
        Some(entries[0].value@)
    } else {
        lookup(entries.drop_first(), key)
    }
}

/// Find the value of the first entry with key `key`.
pub fn find_entry(entries: &[LabelSelectorEntry], key: &str) -> (r: Option<String>)
    ensures
        match r {
            None => lookup(entries@, key@) is None,
            Some(v) => lookup(entries@, key@) == Some(v@),
        },
{
    let n = entries.len();
    let mut i: usize = 0;
    assert(entries@.skip(0) =~= entries@);
    while i < n
        invariant
            n == entries@.len(),
            i <= n,
            lookup(entries@, key@) == lookup(entries@.skip(i as int), key@),
        decreases n - i,
    {
        assert(entries@.skip(i as int).drop_first() =~= entries@.skip(i + 1));
        assert(entries@.skip(i as int)[0] == entries@[i as int]);
        if str_eq(entries[i].key.as_str(), key) {
            return Some(entries[i].value.clone());
        }
        i = i + 1;
    }
    assert(entries@.skip(n as int) =~= Seq::<LabelSelectorEntry>::empty());
    None
}

/// The contents of an optional string.
pub open spec fn opt_chars(o: Option<String>) -> Option<Seq<char>> {
    match o {
        None => None,
        Some(s) => Some(s@),
    }
}

/// Describe a Deployment as a Kply session when its labels say Kply manages
/// it and name a session id; the session's name and app come from labels and
/// its status from annotations.
pub fn session_summary_from_metadata(
    namespace: &str,
    name: &str,
    labels: &[LabelSelectorEntry],
    annotations: &[LabelSelectorEntry],
) -> (r: Option<SessionSummary>)
    ensures
        match r {
            None => lookup(labels@, "kply.dev/managed-by"@) != Some("kply"@) || lookup(
                labels@,
                "kply.dev/session-id"@,
            ) is None,
            Some(s) => lookup(labels@, "kply.dev/managed-by"@) == Some("kply"@) && lookup(
                labels@,
                "kply.dev/session-id"@,
            ) == Some(s.id@) && opt_chars(s.name) == lookup(labels@, "kply.dev/session-name"@)
                && opt_chars(s.app) == lookup(labels@, "kply.dev/app"@) && opt_chars(s.status)
                == lookup(annotations@, "kply.dev/session-status"@) && s.namespace@ == namespace@
                && s.workload_kind@ == "Deployment"@ && s.workload_name@ == name@,
        },
{
    let managed = find_entry(labels, "kply.dev/managed-by");
    match managed {
        None => return None,
        Some(m) => {
            if !str_eq(m.as_str(), "kply") {
                return None;
            }
        },
    }
    let id = match find_entry(labels, "kply.dev/session-id") {
        None => return None,
        Some(id) => id,
    };
    Some(
        SessionSummary {
            id,
            name: find_entry(labels, "kply.dev/session-name"),
            namespace: string_of(namespace),
            app: find_entry(labels, "kply.dev/app"),
            status: find_entry(annotations, "kply.dev/session-status"),
            workload_kind: string_of("Deployment"),
            workload_name: string_of(name),
        },
    )
}

/// Namespace summaries are listed by name.
impl Keyed for NamespaceSummary {
    open spec fn key(&self) -> Seq<u32> {
        str_key(self.name@)
    }

    fn sort_key(&self) -> (k: Vec<u32>) {
        let mut k = Vec::new();
        push_str_key(&mut k, self.name.as_str());
        assert(k@ =~= str_key(self.name@));
        k
    }
}

/// Deployment summaries are listed by name.
impl Keyed for DeploymentSummary {
    open spec fn key(&self) -> Seq<u32> {
        str_key(self.name@)
    }

    fn sort_key(&self) -> (k: Vec<u32>) {
        let mut k = Vec::new();
        push_str_key(&mut k, self.name.as_str());
        assert(k@ =~= str_key(self.name@));
        k
    }
}

/// Service summaries are listed by name.
impl Keyed for ServiceSummary {
    open spec fn key(&self) -> Seq<u32> {
        str_key(self.name@)
    }

    fn sort_key(&self) -> (k: Vec<u32>) {
        let mut k = Vec::new();
        push_str_key(&mut k, self.name.as_str());
        assert(k@ =~= str_key(self.name@));
        k
    }
}

/// Pod summaries are listed by name.
impl Keyed for PodSummary {
    open spec fn key(&self) -> Seq<u32> {
        str_key(self.name@)
    }

    fn sort_key(&self) -> (k: Vec<u32>) {
        let mut k = Vec::new();
        push_str_key(&mut k, self.name.as_str());
        assert(k@ =~= str_key(self.name@));
        k
    }
}

/// Ingress summaries are listed by name.
impl Keyed for IngressSummary {
    open spec fn key(&self) -> Seq<u32> {
        str_key(self.name@)
    }

    fn sort_key(&self) -> (k: Vec<u32>) {
        let mut k = Vec::new();
        push_str_key(&mut k, self.name.as_str());
        assert(k@ =~= str_key(self.name@));
        k
    }
}

/// GatewayClass summaries are listed by name.
impl Keyed for GatewayClassSummary {
    open spec fn key(&self) -> Seq<u32> {
        str_key(self.name@)
    }

    fn sort_key(&self) -> (k: Vec<u32>) {
        let mut k = Vec::new();
        push_str_key(&mut k, self.name.as_str());
        assert(k@ =~= str_key(self.name@));
        k
    }
}

/// Gateway summaries are listed by name.
impl Keyed for GatewaySummary {
    open spec fn key(&self) -> Seq<u32> {
        str_key(self.name@)
    }

    fn sort_key(&self) -> (k: Vec<u32>) {
        let mut k = Vec::new();
        push_str_key(&mut k, self.name.as_str());
        assert(k@ =~= str_key(self.name@));
        k
    }
}

/// HttpRoute summaries are listed by name.
impl Keyed for HttpRouteSummary {
    open spec fn key(&self) -> Seq<u32> {
        str_key(self.name@)
    }

    fn sort_key(&self) -> (k: Vec<u32>) {
        let mut k = Vec::new();
        push_str_key(&mut k, self.name.as_str());
        assert(k@ =~= str_key(self.name@));
        k
    }
}

/// Sessions are listed by id, then by workload name.
impl Keyed for SessionSummary {
    open spec fn key(&self) -> Seq<u32> {
        str_key(self.id@) + str_key(self.workload_name@)
    }

    fn sort_key(&self) -> (k: Vec<u32>) {
        let mut k = Vec::new();
        push_str_key(&mut k, self.id.as_str());
        push_str_key(&mut k, self.workload_name.as_str());
        assert(k@ =~= str_key(self.id@) + str_key(self.workload_name@));
        k
    }
}

/// Sort summaries by their listing order, keeping ties in the order listed.
pub fn sort_summaries<T: Keyed>(summaries: Vec<T>) -> (r: Vec<T>)
    ensures
        r@.len() == summaries@.len(),
        stably_sorted_of(r@, summaries@),
{
    stable_sort_by_key(summaries)
}

/// Workload name order: character by character, a proper prefix first.
pub open spec fn workload_name_before(a: SessionSummary, b: SessionSummary) -> bool {
    key_lt(str_key(a.workload_name@), str_key(b.workload_name@))
}

/// The session that a lookup by id returns: among the sessions with that id,
/// the one whose workload name comes first, the earliest listed among equals.
pub open spec fn chosen_session(sessions: Seq<SessionSummary>, session_id: Seq<char>, i: int) -> bool {
    &&& 0 <= i < sessions.len()
    &&& sessions[i].id@ == session_id
    &&& forall|j: int|
        0 <= j < sessions.len() && (#[trigger] sessions[j]).id@ == session_id ==> !workload_name_before(
            sessions[j],
            sessions[i],
        ) && (sessions[j].workload_name@ == sessions[i].workload_name@ ==> i <= j)
}

/// Pick the session with id `session_id`, as [`chosen_session`] describes,
/// or nothing when no session has that id.
pub fn select_session(sessions: Vec<SessionSummary>, session_id: &str) -> (r: Option<SessionSummary>)
    ensures
        match r {
            None => forall|j: int| 0 <= j < sessions@.len() ==> (#[trigger] sessions@[j]).id@ != session_id@,
            Some(s) => exists|i: int| chosen_session(sessions@, session_id@, i) && sessions@[i] == s,
        },
{
    let n = sessions.len();
    let mut best: Option<usize> = None;
    let mut best_key: Vec<u32> = Vec::new();
    for i in 0..n
        invariant
            n == sessions@.len(),
            match best {
                None => forall|j: int| 0 <= j < i ==> (#[trigger] sessions@[j]).id@ != session_id@,
                Some(b) => {
                    &&& b < i
                    &&& best_key@ == str_key(sessions@[b as int].workload_name@)
                    &&& sessions@[b as int].id@ == session_id@
                    &&& forall|j: int|
                        0 <= j < i && (#[trigger] sessions@[j]).id@ == session_id@ ==> !workload_name_before(
                            sessions@[j],
                            sessions@[b as int],
                        ) && (sessions@[j].workload_name@ == sessions@[b as int].workload_name@ ==> b <= j)
                },
            },
    {
        let s = &sessions[i];
        if str_eq(s.id.as_str(), session_id) {
            let mut k: Vec<u32> = Vec::new();
            push_str_key(&mut k, s.workload_name.as_str());
            assert(k@ =~= str_key(s.workload_name@));
            match best {
                None => {
                    proof {
                        crate::order::lemma_key_lt_irreflexive(str_key(sessions@[i as int].workload_name@));
                    }
                    best = Some(i);
                    best_key = k;
                },
                Some(b) => {
                    if crate::order::key_order(k.as_slice(), best_key.as_slice()) < 0 {
                        proof {
                            assert forall|j: int|
                                0 <= j < i + 1 && (#[trigger] sessions@[j]).id@ == session_id@ implies !workload_name_before(
                                    sessions@[j],
                                    sessions@[i as int],
                                ) && (sessions@[j].workload_name@ == sessions@[i as int].workload_name@ ==> i <= j) by {
                                if j < i {
                                    if workload_name_before(sessions@[j], sessions@[i as int]) {
                                        crate::order::lemma_key_lt_transitive(
                                            str_key(sessions@[j].workload_name@),
                                            str_key(sessions@[i as int].workload_name@),
                                            str_key(sessions@[b as int].workload_name@),
                                        );
                                    }
                                    if sessions@[j].workload_name@ == sessions@[i as int].workload_name@ {
                                        assert(!workload_name_before(sessions@[j], sessions@[b as int]));
                                    }
                                } else {
                                    crate::order::lemma_key_lt_irreflexive(str_key(sessions@[i as int].workload_name@));
                                }
                            }
                        }
                        best = Some(i);
                        best_key = k;
                    } else {
                        proof {
                            crate::order::lemma_key_lt_total(
                                str_key(sessions@[i as int].workload_name@),
                                str_key(sessions@[b as int].workload_name@),
                            );
                            crate::order::lemma_str_key_injective(
                                sessions@[i as int].workload_name@,
                                sessions@[b as int].workload_name@,
                            );
                        }
                    }
                },
            }
        }
    }
    match best {
        None => None,
        Some(b) => {
            let ghost orig = sessions@;
            let mut sessions = sessions;
            let s = sessions.remove(b);
            assert(chosen_session(orig, session_id@, b as int));
            Some(s)
        },
    }
}

/// The pods directly owned by `w`, in list order.
pub open spec fn owned_pods_of(pods: Seq<PodSummary>, w: (Seq<char>, Seq<char>, Seq<char>)) -> Seq<PodSummary> {
    pods.filter(|p: PodSummary| owned_by(p, w))
}

/// The pods directly owned by a workload, sorted by name; owner chains such
/// as Deployment to ReplicaSet to Pod are not followed.
pub fn owned_pods(pods: Vec<PodSummary>, workload: &WorkloadRef) -> (r: Vec<PodSummary>)
    ensures
        stably_sorted_of(r@, owned_pods_of(pods@, workload@)),
{
    let ghost orig = pods@;
    let total = pods.len();
    let mut src = pods;
    let mut kept: Vec<PodSummary> = Vec::new();
    let mut done: usize = 0;
    while src.len() > 0
        invariant
            total == orig.len(),
            done <= orig.len(),
            src@ == orig.skip(done as int),
            kept@ == owned_pods_of(orig.take(done as int), workload@),
        decreases src@.len(),
    {
        assert(orig.skip(done as int).len() == orig.len() - done);
        let p = src.remove(0);
        assert(p == orig[done as int]);
        assert(src@ =~= orig.skip(done + 1));
        proof {
            reveal(Seq::filter);
            assert(orig.take(done + 1).drop_last() =~= orig.take(done as int));
        }
        if pod_is_owned_by_workload(&p, workload) {
            kept.push(p);
        }
        done = done + 1;
    }
    assert(orig.take(done as int) =~= orig);
    sort_summaries(kept)
}

} // verus!
