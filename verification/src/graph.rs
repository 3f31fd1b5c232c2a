//! The app graph: what Kply learns about a workload, its Pods, Services,
//! routes, containers, and metadata references, kept in deterministic order.

use vstd::prelude::*;
use crate::ids::{
    ConfigMapRef, KubernetesResourceRef, PodRef, RouteRef, SecretMetadataRef, ServiceRef, WorkloadRef,
    WorkloadTokenError,
};
use crate::order::{
    bool_key, list_key, opt_key, push_bool_key, push_key, push_list_key, push_opt_key,
    push_str_key, push_tag, sort_unique, sorted_unique_of, str_key, strictly_sorted, Keyed, keys_of,
    lemma_sorted_unique_order_determined, lemma_str_key_injective, lemma_str_key_prefix_free, views,
};
use crate::text::{push_str, string_of};
use crate::token::{session_token_check, validate_session_token, ShapeError};
use crate::values::{ImageRef, ResourceQuantity};

verus! {

/// Contents of a workload reference: namespace, kind, and name.
pub type WorkloadView = (Seq<char>, Seq<char>, Seq<char>);

/// Contents of a namespaced reference: namespace and name.
pub type NamedView = (Seq<char>, Seq<char>);

/// Contents of a container reference: its workload and its name.
pub type ContainerView = (WorkloadView, Seq<char>);

/// Key of two strings in order.
pub open spec fn pair_key(v: NamedView) -> Seq<u32> {
    str_key(v.0) + str_key(v.1)
}

/// Key of three strings in order.
pub open spec fn triple_key(v: WorkloadView) -> Seq<u32> {
    str_key(v.0) + str_key(v.1) + str_key(v.2)
}

/// Key of a container: its workload, then its name.
pub open spec fn container_key(v: ContainerView) -> Seq<u32> {
    triple_key(v.0) + str_key(v.1)
}

/// Key of an optional string: absent sorts before present.
pub open spec fn opt_str_key(o: Option<Seq<char>>) -> Seq<u32> {
    match o {
        None => seq![0u32],
        Some(s) => seq![1u32] + str_key(s),
    }
}

impl Keyed for WorkloadRef {
    open spec fn key(&self) -> Seq<u32> {
        triple_key(self@)
    }

    fn sort_key(&self) -> (k: Vec<u32>) {
        let mut k = Vec::new();
        push_str_key(&mut k, self.namespace());
        push_str_key(&mut k, self.kind());
        push_str_key(&mut k, self.name());
        assert(k@ =~= triple_key(self@));
        k
    }
}

impl Keyed for KubernetesResourceRef {
    open spec fn key(&self) -> Seq<u32> {
        triple_key(self@)
    }

    fn sort_key(&self) -> (k: Vec<u32>) {
        let mut k = Vec::new();
        push_str_key(&mut k, self.namespace());
        push_str_key(&mut k, self.kind());
        push_str_key(&mut k, self.name());
        assert(k@ =~= triple_key(self@));
        k
    }
}

impl Keyed for RouteRef {
    open spec fn key(&self) -> Seq<u32> {
        triple_key(self@)
    }

    fn sort_key(&self) -> (k: Vec<u32>) {
        let mut k = Vec::new();
        push_str_key(&mut k, self.namespace());
        push_str_key(&mut k, self.kind());
        push_str_key(&mut k, self.name());
        assert(k@ =~= triple_key(self@));
        k
    }
}

impl Keyed for PodRef {
    open spec fn key(&self) -> Seq<u32> {
        pair_key(self@)
    }

    fn sort_key(&self) -> (k: Vec<u32>) {
        let mut k = Vec::new();
        push_str_key(&mut k, self.namespace());
        push_str_key(&mut k, self.name());
        assert(k@ =~= pair_key(self@));
        k
    }
}

impl Keyed for ServiceRef {
    open spec fn key(&self) -> Seq<u32> {
        pair_key(self@)
    }

    fn sort_key(&self) -> (k: Vec<u32>) {
        let mut k = Vec::new();
        push_str_key(&mut k, self.namespace());
        push_str_key(&mut k, self.name());
        assert(k@ =~= pair_key(self@));
        k
    }
}

impl Keyed for ConfigMapRef {
    open spec fn key(&self) -> Seq<u32> {
        pair_key(self@)
    }

    fn sort_key(&self) -> (k: Vec<u32>) {
        let mut k = Vec::new();
        push_str_key(&mut k, self.namespace());
        push_str_key(&mut k, self.name());
        assert(k@ =~= pair_key(self@));
        k
    }
}

impl Keyed for SecretMetadataRef {
    open spec fn key(&self) -> Seq<u32> {
        pair_key(self@)
    }

    fn sort_key(&self) -> (k: Vec<u32>) {
        let mut k = Vec::new();
        push_str_key(&mut k, self.namespace());
        push_str_key(&mut k, self.name());
        assert(k@ =~= pair_key(self@));
        k
    }
}

impl Keyed for ImageRef {
    open spec fn key(&self) -> Seq<u32> {
        str_key(self@)
    }

    fn sort_key(&self) -> (k: Vec<u32>) {
        let mut k = Vec::new();
        push_str_key(&mut k, self.as_str());
        assert(k@ =~= str_key(self@));
        k
    }
}

impl Keyed for ResourceQuantity {
    open spec fn key(&self) -> Seq<u32> {
        str_key(self@)
    }

    fn sort_key(&self) -> (k: Vec<u32>) {
        let mut k = Vec::new();
        push_str_key(&mut k, self.as_str());
        assert(k@ =~= str_key(self@));
        k
    }
}

/// Directed graph edge from a Service to a route object.
#[derive(Debug, PartialEq, Eq, Hash, PartialOrd, Ord)]
pub struct ServiceRouteRef {
    service: ServiceRef,
    route: RouteRef,
}

impl View for ServiceRouteRef {
    type V = (NamedView, WorkloadView);

    closed spec fn view(&self) -> (NamedView, WorkloadView) {
        (self.service@, self.route@)
    }
}

impl ServiceRouteRef {
    /// Create a [`ServiceRouteRef`] from validated Service and route references.
    pub fn new(service: ServiceRef, route: RouteRef) -> (r: Self)
        ensures
            r@ == (service@, route@),
    {
        ServiceRouteRef { service, route }
    }

    /// Borrow the Service side of the route reference.
    pub fn service(&self) -> (r: &ServiceRef)
        ensures
            r@ == self@.0,
    {
        &self.service
    }

    /// Borrow the route side of the route reference.
    pub fn route(&self) -> (r: &RouteRef)
        ensures
            r@ == self@.1,
    {
        &self.route
    }
}

impl Clone for ServiceRouteRef {
    fn clone(&self) -> (r: Self)
        ensures
            r@ == self@,
    {
        ServiceRouteRef { service: self.service.clone(), route: self.route.clone() }
    }
}

impl Keyed for ServiceRouteRef {
    open spec fn key(&self) -> Seq<u32> {
        pair_key(self@.0) + triple_key(self@.1)
    }

    fn sort_key(&self) -> (k: Vec<u32>) {
        let mut k = self.service.sort_key();
        push_key(&mut k, &self.route);
        k
    }
}

/// Error returned when a [`ContainerRef`] is not valid.
#[derive(Debug, Clone, Copy, PartialEq, Eq, Structural)]
pub enum ContainerRefError {
    /// Container names use the same token rules as workload names.
    Name(WorkloadTokenError),
}

impl ContainerRefError {
    /// The human-readable message for this error.
    pub open spec fn text(self) -> Seq<char> {
        match self {
            ContainerRefError::Name(e) => "invalid container name: "@ + e.text(),
        }
    }

    /// Render the human-readable message for this error.
    pub fn to_string(&self) -> (m: String)
        ensures
            m@ == self.text(),
    {
        match self {
            ContainerRefError::Name(e) => {
                let mut m = string_of("invalid container name: ");
                let t = e.to_string();
                push_str(&mut m, t.as_str());
                m
            },
        }
    }
}

/// Stable container reference within a workload.
#[derive(Debug, PartialEq, Eq, Hash, PartialOrd, Ord)]
pub struct ContainerRef {
    workload: WorkloadRef,
    name: String,
}

impl View for ContainerRef {
    type V = ContainerView;

    closed spec fn view(&self) -> ContainerView {
        (self.workload@, self.name@)
    }
}

impl ContainerRef {
    #[verifier::type_invariant]
    spec fn well_formed(self) -> bool {
        session_token_check(self.name@) is Ok
    }

    /// Create a [`ContainerRef`] from a workload and validated container name.
    pub fn new(workload: WorkloadRef, name: &str) -> (r: Result<Self, ContainerRefError>)
        ensures
            match r {
                Ok(c) => session_token_check(name@) is Ok && c@ == (workload@, name@),
                Err(ContainerRefError::Name(e)) => session_token_check(name@) == Err::<
                    (),
                    ShapeError,
                >(e.shape()),
            },
    {
        match validate_session_token(name) {
            Ok(()) => Ok(ContainerRef { workload, name: string_of(name) }),
            Err(e) => Err(ContainerRefError::Name(WorkloadTokenError::from_shape(e))),
        }
    }

    /// Borrow the workload that owns this container.
    pub fn workload(&self) -> (r: &WorkloadRef)
        ensures
            r@ == self@.0,
    {
        &self.workload
    }

    /// Borrow the container name.
    pub fn name(&self) -> (r: &str)
        ensures
            r@ == self@.1,
            session_token_check(r@) is Ok,
    {
        proof {
            use_type_invariant(self);
        }
        self.name.as_str()
    }

    /// The workload and container name joined with `/`, as shown to users.
    pub fn to_string(&self) -> (r: String)
        ensures
            r@ == self@.0.0 + "/"@ + self@.0.1 + "/"@ + self@.0.2 + "/"@ + self@.1,
    {
        let mut r = self.workload.to_string();
        push_str(&mut r, "/");
        push_str(&mut r, self.name.as_str());
        r
    }
}

impl Clone for ContainerRef {
    fn clone(&self) -> (r: Self)
        ensures
            r@ == self@,
    {
        proof {
            use_type_invariant(self);
        }
        ContainerRef { workload: self.workload.clone(), name: self.name.clone() }
    }
}

impl Keyed for ContainerRef {
    open spec fn key(&self) -> Seq<u32> {
        container_key(self@)
    }

    fn sort_key(&self) -> (k: Vec<u32>) {
        let mut k = self.workload.sort_key();
        push_str_key(&mut k, self.name.as_str());
        assert(k@ =~= container_key(self@));
        k
    }
}

/// Probe facts discovered for a workload container.
#[derive(Debug, PartialEq, Eq, Hash, PartialOrd, Ord)]
pub struct ProbeFacts {
    container: ContainerRef,
    readiness_probe: bool,
    liveness_probe: bool,
    startup_probe: bool,
}

impl View for ProbeFacts {
    type V = (ContainerView, bool, bool, bool);

    closed spec fn view(&self) -> (ContainerView, bool, bool, bool) {
        (self.container@, self.readiness_probe, self.liveness_probe, self.startup_probe)
    }
}

impl ProbeFacts {
    /// Create [`ProbeFacts`] for a validated container reference.
    pub fn new(
        container: ContainerRef,
        readiness_probe: bool,
        liveness_probe: bool,
        startup_probe: bool,
    ) -> (r: Self)
        ensures
            r@ == (container@, readiness_probe, liveness_probe, startup_probe),
    {
        ProbeFacts { container, readiness_probe, liveness_probe, startup_probe }
    }

    /// Borrow the container these probe facts describe.
    pub fn container(&self) -> (r: &ContainerRef)
        ensures
            r@ == self@.0,
    {
        &self.container
    }

    /// Return whether a readiness probe is configured.
    pub fn readiness_probe(&self) -> (r: bool)
        ensures
            r == self@.1,
    {
        self.readiness_probe
    }

    /// Return whether a liveness probe is configured.
    pub fn liveness_probe(&self) -> (r: bool)
        ensures
            r == self@.2,
    {
        self.liveness_probe
    }

    /// Return whether a startup probe is configured.
    pub fn startup_probe(&self) -> (r: bool)
        ensures
            r == self@.3,
    {
        self.startup_probe
    }
}

impl Clone for ProbeFacts {
    fn clone(&self) -> (r: Self)
        ensures
            r@ == self@,
    {
        ProbeFacts {
            container: self.container.clone(),
            readiness_probe: self.readiness_probe,
            liveness_probe: self.liveness_probe,
            startup_probe: self.startup_probe,
        }
    }
}

impl Keyed for ProbeFacts {
    open spec fn key(&self) -> Seq<u32> {
        container_key(self@.0) + bool_key(self@.1) + bool_key(self@.2) + bool_key(self@.3)
    }

    fn sort_key(&self) -> (k: Vec<u32>) {
        let mut k = self.container.sort_key();
        push_bool_key(&mut k, self.readiness_probe);
        push_bool_key(&mut k, self.liveness_probe);
        push_bool_key(&mut k, self.startup_probe);
        k
    }
}

/// Kubernetes container probe kind.
#[derive(Debug, Clone, Copy, PartialEq, Eq, Hash, PartialOrd, Ord, Structural)]
pub enum ProbeKind {
    /// Readiness probe kind.
    Readiness,
    /// Liveness probe kind.
    Liveness,
    /// Startup probe kind.
    Startup,
}

impl ProbeKind {
    /// The stable serialized probe kind name.
    pub open spec fn name(self) -> Seq<char> {
        match self {
            ProbeKind::Readiness => "readiness"@,
            ProbeKind::Liveness => "liveness"@,
            ProbeKind::Startup => "startup"@,
        }
    }

    /// Return the stable serialized probe kind name.
    pub fn as_str(self) -> (r: &'static str)
        ensures
            r@ == self.name(),
    {
        match self {
            ProbeKind::Readiness => "readiness",
            ProbeKind::Liveness => "liveness",
            ProbeKind::Startup => "startup",
        }
    }

    /// The probe kind name as shown to users.
    pub fn to_string(&self) -> (r: String)
        ensures
            r@ == self.name(),
    {
        string_of(self.as_str())
    }
}

impl Keyed for ProbeKind {
    open spec fn key(&self) -> Seq<u32> {
        match self {
            ProbeKind::Readiness => seq![0u32],
            ProbeKind::Liveness => seq![1u32],
            ProbeKind::Startup => seq![2u32],
        }
    }

    fn sort_key(&self) -> (k: Vec<u32>) {
        let mut k = Vec::new();
        match self {
            ProbeKind::Readiness => k.push(0),
            ProbeKind::Liveness => k.push(1),
            ProbeKind::Startup => k.push(2),
        }
        assert(k@ =~= self.key());
        k
    }
}

/// Image facts discovered for a workload container.
#[derive(Debug, PartialEq, Eq, Hash, PartialOrd, Ord)]
pub struct ImageFacts {
    container: ContainerRef,
    image: ImageRef,
}

impl View for ImageFacts {
    type V = (ContainerView, Seq<char>);

    closed spec fn view(&self) -> (ContainerView, Seq<char>) {
        (self.container@, self.image@)
    }
}

impl ImageFacts {
    /// Create [`ImageFacts`] for a validated container and image reference.
    pub fn new(container: ContainerRef, image: ImageRef) -> (r: Self)
        ensures
            r@ == (container@, image@),
    {
        ImageFacts { container, image }
    }

    /// Borrow the container these image facts describe.
    pub fn container(&self) -> (r: &ContainerRef)
        ensures
            r@ == self@.0,
    {
        &self.container
    }

    /// Borrow the image reference configured for this container.
    pub fn image(&self) -> (r: &ImageRef)
        ensures
            r@ == self@.1,
    {
        &self.image
    }
}

impl Clone for ImageFacts {
    fn clone(&self) -> (r: Self)
        ensures
            r@ == self@,
    {
        ImageFacts { container: self.container.clone(), image: self.image.clone() }
    }
}

impl Keyed for ImageFacts {
    open spec fn key(&self) -> Seq<u32> {
        container_key(self@.0) + str_key(self@.1)
    }

    fn sort_key(&self) -> (k: Vec<u32>) {
        let mut k = self.container.sort_key();
        push_key(&mut k, &self.image);
        k
    }
}

/// The contents of an optional resource quantity.
pub open spec fn opt_view(o: Option<ResourceQuantity>) -> Option<Seq<char>> {
    match o {
        None => None,
        Some(q) => Some(q@),
    }
}

/// Resource facts discovered for a workload container.
#[derive(Debug, PartialEq, Eq, Hash, PartialOrd, Ord)]
pub struct ResourceFacts {
    container: ContainerRef,
    cpu_request: Option<ResourceQuantity>,
    cpu_limit: Option<ResourceQuantity>,
    memory_request: Option<ResourceQuantity>,
    memory_limit: Option<ResourceQuantity>,
}

impl View for ResourceFacts {
    type V = (
        ContainerView,
        Option<Seq<char>>,
        Option<Seq<char>>,
        Option<Seq<char>>,
        Option<Seq<char>>,
    );

    closed spec fn view(&self) -> (
        ContainerView,
        Option<Seq<char>>,
        Option<Seq<char>>,
        Option<Seq<char>>,
        Option<Seq<char>>,
    ) {
        (
            self.container@,
            opt_view(self.cpu_request),
            opt_view(self.cpu_limit),
            opt_view(self.memory_request),
            opt_view(self.memory_limit),
        )
    }
}

/// Borrow the quantity inside an optional quantity.
fn opt_ref(o: &Option<ResourceQuantity>) -> (r: Option<&ResourceQuantity>)
    ensures
        match r {
            None => o is None,
            Some(q) => o matches Some(p) && q@ == p@,
        },
{
    match o {
        None => None,
        Some(q) => Some(q),
    }
}

/// Copy an optional quantity.
fn opt_clone(o: &Option<ResourceQuantity>) -> (r: Option<ResourceQuantity>)
    ensures
        opt_view(r) == opt_view(*o),
{
    match o {
        None => None,
        Some(q) => Some(q.clone()),
    }
}

impl ResourceFacts {
    /// Create [`ResourceFacts`] for a validated container reference.
    pub fn new(
        container: ContainerRef,
        cpu_request: Option<ResourceQuantity>,
        cpu_limit: Option<ResourceQuantity>,
        memory_request: Option<ResourceQuantity>,
        memory_limit: Option<ResourceQuantity>,
    ) -> (r: Self)
        ensures
            r@ == (
                container@,
                opt_view(cpu_request),
                opt_view(cpu_limit),
                opt_view(memory_request),
                opt_view(memory_limit),
            ),
    {
        ResourceFacts { container, cpu_request, cpu_limit, memory_request, memory_limit }
    }

    /// Borrow the container these resource facts describe.
    pub fn container(&self) -> (r: &ContainerRef)
        ensures
            r@ == self@.0,
    {
        &self.container
    }

    /// Borrow the CPU request quantity when configured.
    pub fn cpu_request(&self) -> (r: Option<&ResourceQuantity>)
        ensures
            match r {
                None => self@.1 is None,
                Some(q) => self@.1 == Some(q@),
            },
    {
        opt_ref(&self.cpu_request)
    }

    /// Borrow the CPU limit quantity when configured.
    pub fn cpu_limit(&self) -> (r: Option<&ResourceQuantity>)
        ensures
            match r {
                None => self@.2 is None,
                Some(q) => self@.2 == Some(q@),
            },
    {
        opt_ref(&self.cpu_limit)
    }

    /// Borrow the memory request quantity when configured.
    pub fn memory_request(&self) -> (r: Option<&ResourceQuantity>)
        ensures
            match r {
                None => self@.3 is None,
                Some(q) => self@.3 == Some(q@),
            },
    {
        opt_ref(&self.memory_request)
    }

    /// Borrow the memory limit quantity when configured.
    pub fn memory_limit(&self) -> (r: Option<&ResourceQuantity>)
        ensures
            match r {
                None => self@.4 is None,
                Some(q) => self@.4 == Some(q@),
            },
    {
        opt_ref(&self.memory_limit)
    }
}

impl Clone for ResourceFacts {
    fn clone(&self) -> (r: Self)
        ensures
            r@ == self@,
    {
        ResourceFacts {
            container: self.container.clone(),
            cpu_request: opt_clone(&self.cpu_request),
            cpu_limit: opt_clone(&self.cpu_limit),
            memory_request: opt_clone(&self.memory_request),
            memory_limit: opt_clone(&self.memory_limit),
        }
    }
}

impl Keyed for ResourceFacts {
    open spec fn key(&self) -> Seq<u32> {
        container_key(self@.0) + opt_str_key(self@.1) + opt_str_key(self@.2) + opt_str_key(
            self@.3,
        ) + opt_str_key(self@.4)
    }

    fn sort_key(&self) -> (k: Vec<u32>) {
        let mut k = self.container.sort_key();
        push_opt_key(&mut k, &self.cpu_request);
        push_opt_key(&mut k, &self.cpu_limit);
        push_opt_key(&mut k, &self.memory_request);
        push_opt_key(&mut k, &self.memory_limit);
        assert(opt_key(self.cpu_request) =~= opt_str_key(self@.1));
        assert(opt_key(self.cpu_limit) =~= opt_str_key(self@.2));
        assert(opt_key(self.memory_request) =~= opt_str_key(self@.3));
        assert(opt_key(self.memory_limit) =~= opt_str_key(self@.4));
        k
    }
}

/// Metadata reference from a workload container to a ConfigMap.
#[derive(Debug, PartialEq, Eq, Hash, PartialOrd, Ord)]
pub struct ConfigReference {
    container: ContainerRef,
    config_map: ConfigMapRef,
}

impl View for ConfigReference {
    type V = (ContainerView, NamedView);

    closed spec fn view(&self) -> (ContainerView, NamedView) {
        (self.container@, self.config_map@)
    }
}

impl ConfigReference {
    /// Create a [`ConfigReference`] from validated container and ConfigMap references.
    pub fn new(container: ContainerRef, config_map: ConfigMapRef) -> (r: Self)
        ensures
            r@ == (container@, config_map@),
    {
        ConfigReference { container, config_map }
    }

    /// Borrow the container side of the ConfigMap reference.
    pub fn container(&self) -> (r: &ContainerRef)
        ensures
            r@ == self@.0,
    {
        &self.container
    }

    /// Borrow the ConfigMap metadata reference.
    pub fn config_map(&self) -> (r: &ConfigMapRef)
        ensures
            r@ == self@.1,
    {
        &self.config_map
    }
}

impl Clone for ConfigReference {
    fn clone(&self) -> (r: Self)
        ensures
            r@ == self@,
    {
        ConfigReference { container: self.container.clone(), config_map: self.config_map.clone() }
    }
}

impl Keyed for ConfigReference {
    open spec fn key(&self) -> Seq<u32> {
        container_key(self@.0) + pair_key(self@.1)
    }

    fn sort_key(&self) -> (k: Vec<u32>) {
        let mut k = self.container.sort_key();
        push_key(&mut k, &self.config_map);
        k
    }
}

/// Metadata reference from a workload container to a Secret.
#[derive(Debug, PartialEq, Eq, Hash, PartialOrd, Ord)]
pub struct SecretReference {
    container: ContainerRef,
    secret: SecretMetadataRef,
}

impl View for SecretReference {
    type V = (ContainerView, NamedView);

    closed spec fn view(&self) -> (ContainerView, NamedView) {
        (self.container@, self.secret@)
    }
}

impl SecretReference {
    /// Create a [`SecretReference`] from validated container and Secret metadata references.
    pub fn new(container: ContainerRef, secret: SecretMetadataRef) -> (r: Self)
        ensures
            r@ == (container@, secret@),
    {
        SecretReference { container, secret }
    }

    /// Borrow the container side of the Secret reference.
    pub fn container(&self) -> (r: &ContainerRef)
        ensures
            r@ == self@.0,
    {
        &self.container
    }

    /// Borrow the Secret metadata reference.
    pub fn secret(&self) -> (r: &SecretMetadataRef)
        ensures
            r@ == self@.1,
    {
        &self.secret
    }
}

impl Clone for SecretReference {
    fn clone(&self) -> (r: Self)
        ensures
            r@ == self@,
    {
        SecretReference { container: self.container.clone(), secret: self.secret.clone() }
    }
}

impl Keyed for SecretReference {
    open spec fn key(&self) -> Seq<u32> {
        container_key(self@.0) + pair_key(self@.1)
    }

    fn sort_key(&self) -> (k: Vec<u32>) {
        let mut k = self.container.sort_key();
        push_key(&mut k, &self.secret);
        k
    }
}

/// App graph relationship that can carry confidence metadata.
#[derive(Debug, Clone, PartialEq, Eq, Hash, PartialOrd, Ord)]
pub enum GraphRelationship {
    /// Relationship between the root workload and an owned Pod.
    WorkloadPodOwnership { pod: PodRef },
    /// Relationship between the root workload and a selecting Service.
    WorkloadServiceSelection { service: ServiceRef },
    /// Relationship between a Service and a route object.
    ServiceRouteReference { service: ServiceRef, route: RouteRef },
    /// Metadata relationship between a container and a ConfigMap.
    ContainerConfigReference { container: ContainerRef, config_map: ConfigMapRef },
    /// Metadata relationship between a container and a Secret.
    ContainerSecretReference { container: ContainerRef, secret: SecretMetadataRef },
}

impl Keyed for GraphRelationship {
    open spec fn key(&self) -> Seq<u32> {
        match self {
            GraphRelationship::WorkloadPodOwnership { pod } => seq![0u32] + pod.key(),
            GraphRelationship::WorkloadServiceSelection { service } => seq![1u32] + service.key(),
            GraphRelationship::ServiceRouteReference { service, route } => seq![2u32]
                + service.key() + route.key(),
            GraphRelationship::ContainerConfigReference { container, config_map } => seq![3u32]
                + container.key() + config_map.key(),
            GraphRelationship::ContainerSecretReference { container, secret } => seq![4u32]
                + container.key() + secret.key(),
        }
    }

    fn sort_key(&self) -> (k: Vec<u32>) {
        let mut k = Vec::new();
        match self {
            GraphRelationship::WorkloadPodOwnership { pod } => {
                push_tag(&mut k, 0);
                push_key(&mut k, pod);
            },
            GraphRelationship::WorkloadServiceSelection { service } => {
                push_tag(&mut k, 1);
                push_key(&mut k, service);
            },
            GraphRelationship::ServiceRouteReference { service, route } => {
                push_tag(&mut k, 2);
                push_key(&mut k, service);
                push_key(&mut k, route);
            },
            GraphRelationship::ContainerConfigReference { container, config_map } => {
                push_tag(&mut k, 3);
                push_key(&mut k, container);
                push_key(&mut k, config_map);
            },
            GraphRelationship::ContainerSecretReference { container, secret } => {
                push_tag(&mut k, 4);
                push_key(&mut k, container);
                push_key(&mut k, secret);
            },
        }
        assert(k@ =~= self.key());
        k
    }
}

/// Confidence level assigned to an inferred graph relationship.
#[derive(Debug, Clone, Copy, PartialEq, Eq, Hash, PartialOrd, Ord, Structural)]
pub enum ConfidenceLevel {
    /// Low confidence relationship.
    Low,
    /// Medium confidence relationship.
    Medium,
    /// High confidence relationship.
    High,
}

impl ConfidenceLevel {
    /// The stable serialized confidence level name.
    pub open spec fn name(self) -> Seq<char> {
        match self {
            ConfidenceLevel::Low => "low"@,
            ConfidenceLevel::Medium => "medium"@,
            ConfidenceLevel::High => "high"@,
        }
    }

    /// Return the stable serialized confidence level name.
    pub fn as_str(self) -> (r: &'static str)
        ensures
            r@ == self.name(),
    {
        match self {
            ConfidenceLevel::Low => "low",
            ConfidenceLevel::Medium => "medium",
            ConfidenceLevel::High => "high",
        }
    }

    /// The confidence level name as shown to users.
    pub fn to_string(&self) -> (r: String)
        ensures
            r@ == self.name(),
    {
        string_of(self.as_str())
    }
}

/// Key of a confidence level: low, medium, high.
pub open spec fn level_key(c: ConfidenceLevel) -> Seq<u32> {
    match c {
        ConfidenceLevel::Low => seq![0u32],
        ConfidenceLevel::Medium => seq![1u32],
        ConfidenceLevel::High => seq![2u32],
    }
}

/// Confidence metadata for an inferred graph relationship.
#[derive(Debug, Clone, PartialEq, Eq, Hash, PartialOrd, Ord)]
pub struct RelationshipConfidence {
    relationship: GraphRelationship,
    confidence: ConfidenceLevel,
}

impl View for RelationshipConfidence {
    type V = (GraphRelationship, ConfidenceLevel);

    closed spec fn view(&self) -> (GraphRelationship, ConfidenceLevel) {
        (self.relationship, self.confidence)
    }
}

impl RelationshipConfidence {
    /// Create confidence metadata for a graph relationship.
    pub fn new(relationship: GraphRelationship, confidence: ConfidenceLevel) -> (r: Self)
        ensures
            r@ == (relationship, confidence),
    {
        RelationshipConfidence { relationship, confidence }
    }

    /// Borrow the graph relationship this confidence describes.
    pub fn relationship(&self) -> (r: &GraphRelationship)
        ensures
            *r == self@.0,
    {
        &self.relationship
    }

    /// Return the confidence level for this relationship.
    pub fn confidence(&self) -> (r: ConfidenceLevel)
        ensures
            r == self@.1,
    {
        self.confidence
    }
}

impl Keyed for RelationshipConfidence {
    open spec fn key(&self) -> Seq<u32> {
        self@.0.key() + level_key(self@.1)
    }

    fn sort_key(&self) -> (k: Vec<u32>) {
        let mut k = self.relationship.sort_key();
        match self.confidence {
            ConfidenceLevel::Low => push_tag(&mut k, 0),
            ConfidenceLevel::Medium => push_tag(&mut k, 1),
            ConfidenceLevel::High => push_tag(&mut k, 2),
        }
        assert(k@ =~= self.key());
        k
    }
}

/// Warning emitted while building the app graph.
#[derive(Debug, Clone, PartialEq, Eq, Hash, PartialOrd, Ord)]
pub enum AppGraphWarning {
    /// A Service selector can plausibly refer to more than one workload.
    AmbiguousServiceSelector { service: ServiceRef, candidate_workloads: Vec<WorkloadRef> },
    /// A selected Service has no discovered route reference.
    MissingRoute { service: ServiceRef },
    /// A [`ContainerRef`] is missing one or more [`ProbeKind`] entries.
    MissingProbes { container: ContainerRef, missing_probes: Vec<ProbeKind> },
}

impl AppGraphWarning {
    /// Create an ambiguous Service selector warning with deterministic candidates.
    pub fn ambiguous_service_selector(
        service: ServiceRef,
        candidate_workloads: Vec<WorkloadRef>,
    ) -> (r: Self)
        ensures
            r matches AppGraphWarning::AmbiguousServiceSelector { service: s, candidate_workloads: c }
                && s == service && sorted_unique_of(c@, candidate_workloads@),
    {
        let candidate_workloads = sort_unique(candidate_workloads);
        AppGraphWarning::AmbiguousServiceSelector { service, candidate_workloads }
    }

    /// Create a missing route warning for a selected [`ServiceRef`].
    pub fn missing_route(service: ServiceRef) -> (r: Self)
        ensures
            r == (AppGraphWarning::MissingRoute { service }),
    {
        AppGraphWarning::MissingRoute { service }
    }

    /// Create a missing probes warning with deterministic [`ProbeKind`] entries.
    pub fn missing_probes(container: ContainerRef, missing_probes: Vec<ProbeKind>) -> (r: Self)
        ensures
            r matches AppGraphWarning::MissingProbes { container: c, missing_probes: m } && c
                == container && sorted_unique_of(m@, missing_probes@),
    {
        let missing_probes = sort_unique(missing_probes);
        AppGraphWarning::MissingProbes { container, missing_probes }
    }
}

impl Keyed for AppGraphWarning {
    open spec fn key(&self) -> Seq<u32> {
        match self {
            AppGraphWarning::AmbiguousServiceSelector { service, candidate_workloads } =>
                seq![0u32] + service.key() + list_key(candidate_workloads@),
            AppGraphWarning::MissingRoute { service } => seq![1u32] + service.key(),
            AppGraphWarning::MissingProbes { container, missing_probes } => seq![2u32]
                + container.key() + list_key(missing_probes@),
        }
    }

    fn sort_key(&self) -> (k: Vec<u32>) {
        let mut k = Vec::new();
        match self {
            AppGraphWarning::AmbiguousServiceSelector { service, candidate_workloads } => {
                push_tag(&mut k, 0);
                push_key(&mut k, service);
                push_list_key(&mut k, candidate_workloads);
            },
            AppGraphWarning::MissingRoute { service } => {
                push_tag(&mut k, 1);
                push_key(&mut k, service);
            },
            AppGraphWarning::MissingProbes { container, missing_probes } => {
                push_tag(&mut k, 2);
                push_key(&mut k, container);
                push_list_key(&mut k, missing_probes);
            },
        }
        assert(k@ =~= self.key());
        k
    }
}

/// What an [`AppGraph`] records: the root workload and, for each kind of
/// relationship, its entries in key order.
pub struct AppGraphModel {
    /// The root workload.
    pub workload: WorkloadView,
    /// The owned pods.
    pub owned_pods: Seq<PodRef>,
    /// The selecting services.
    pub selecting_services: Seq<ServiceRef>,
    /// The service routes.
    pub service_routes: Seq<ServiceRouteRef>,
    /// The probe facts.
    pub probe_facts: Seq<ProbeFacts>,
    /// The image facts.
    pub image_facts: Seq<ImageFacts>,
    /// The resource facts.
    pub resource_facts: Seq<ResourceFacts>,
    /// The config references.
    pub config_references: Seq<ConfigReference>,
    /// The secret references.
    pub secret_references: Seq<SecretReference>,
    /// The relationship confidences.
    pub relationship_confidences: Seq<RelationshipConfidence>,
    /// The warnings.
    pub warnings: Seq<AppGraphWarning>,
}

/// App-level graph rooted at a Kubernetes workload.
///
/// The graph stores relationships as Kply domain references instead of raw
/// Kubernetes client types; each list is kept in key order without repeats.
#[derive(Debug, PartialEq, Eq, Hash)]
pub struct AppGraph {
    workload: WorkloadRef,
    owned_pods: Vec<PodRef>,
    selecting_services: Vec<ServiceRef>,
    service_routes: Vec<ServiceRouteRef>,
    probe_facts: Vec<ProbeFacts>,
    image_facts: Vec<ImageFacts>,
    resource_facts: Vec<ResourceFacts>,
    config_references: Vec<ConfigReference>,
    secret_references: Vec<SecretReference>,
    relationship_confidences: Vec<RelationshipConfidence>,
    warnings: Vec<AppGraphWarning>,
}

impl View for AppGraph {
    type V = AppGraphModel;

    closed spec fn view(&self) -> AppGraphModel {
        AppGraphModel {
            workload: self.workload@,
            owned_pods: self.owned_pods@,
            selecting_services: self.selecting_services@,
            service_routes: self.service_routes@,
            probe_facts: self.probe_facts@,
            image_facts: self.image_facts@,
            resource_facts: self.resource_facts@,
            config_references: self.config_references@,
            secret_references: self.secret_references@,
            relationship_confidences: self.relationship_confidences@,
            warnings: self.warnings@,
        }
    }
}

/// Every list of the graph is in strictly increasing key order.
pub open spec fn graph_sorted(m: AppGraphModel) -> bool {
    &&& strictly_sorted(m.owned_pods)
    &&& strictly_sorted(m.selecting_services)
    &&& strictly_sorted(m.service_routes)
    &&& strictly_sorted(m.probe_facts)
    &&& strictly_sorted(m.image_facts)
    &&& strictly_sorted(m.resource_facts)
    &&& strictly_sorted(m.config_references)
    &&& strictly_sorted(m.secret_references)
    &&& strictly_sorted(m.relationship_confidences)
    &&& strictly_sorted(m.warnings)
}

impl AppGraph {
    #[verifier::type_invariant]
    spec fn well_formed(self) -> bool {
        graph_sorted(self@)
    }

    /// Create an [`AppGraph`] rooted at a validated workload reference.
    pub fn new(workload: WorkloadRef) -> (r: Self)
        ensures
            r@.workload == workload@,
            r@.owned_pods.len() == 0,
            r@.selecting_services.len() == 0,
            r@.service_routes.len() == 0,
            r@.probe_facts.len() == 0,
            r@.image_facts.len() == 0,
            r@.resource_facts.len() == 0,
            r@.config_references.len() == 0,
            r@.secret_references.len() == 0,
            r@.relationship_confidences.len() == 0,
            r@.warnings.len() == 0,
    {
        AppGraph {
            workload,
            owned_pods: Vec::new(),
            selecting_services: Vec::new(),
            service_routes: Vec::new(),
            probe_facts: Vec::new(),
            image_facts: Vec::new(),
            resource_facts: Vec::new(),
            config_references: Vec::new(),
            secret_references: Vec::new(),
            relationship_confidences: Vec::new(),
            warnings: Vec::new(),
        }
    }

    /// Return a copy of this graph with Pods owned by the root workload.
    pub fn with_owned_pods(self, owned_pods: Vec<PodRef>) -> (r: Self)
        ensures
            sorted_unique_of(r@.owned_pods, owned_pods@),
            r@ == (AppGraphModel { owned_pods: r@.owned_pods, ..self@ }),
    {
        proof {
            use_type_invariant(&self);
        }
        let owned_pods = sort_unique(owned_pods);
        AppGraph {
            workload: self.workload,
            owned_pods,
            selecting_services: self.selecting_services,
            service_routes: self.service_routes,
            probe_facts: self.probe_facts,
            image_facts: self.image_facts,
            resource_facts: self.resource_facts,
            config_references: self.config_references,
            secret_references: self.secret_references,
            relationship_confidences: self.relationship_confidences,
            warnings: self.warnings,
        }
    }

    /// Return a copy of this graph with Services selecting the root workload.
    pub fn with_selecting_services(self, selecting_services: Vec<ServiceRef>) -> (r: Self)
        ensures
            sorted_unique_of(r@.selecting_services, selecting_services@),
            r@ == (AppGraphModel { selecting_services: r@.selecting_services, ..self@ }),
    {
        proof {
            use_type_invariant(&self);
        }
        let selecting_services = sort_unique(selecting_services);
        AppGraph {
            workload: self.workload,
            selecting_services,
            owned_pods: self.owned_pods,
            service_routes: self.service_routes,
            probe_facts: self.probe_facts,
            image_facts: self.image_facts,
            resource_facts: self.resource_facts,
            config_references: self.config_references,
            secret_references: self.secret_references,
            relationship_confidences: self.relationship_confidences,
            warnings: self.warnings,
        }
    }

    /// Return a copy of this graph with route references for selected Services.
    pub fn with_service_routes(self, service_routes: Vec<ServiceRouteRef>) -> (r: Self)
        ensures
            sorted_unique_of(r@.service_routes, service_routes@),
            r@ == (AppGraphModel { service_routes: r@.service_routes, ..self@ }),
    {
        proof {
            use_type_invariant(&self);
        }
        let service_routes = sort_unique(service_routes);
        AppGraph {
            workload: self.workload,
            service_routes,
            owned_pods: self.owned_pods,
            selecting_services: self.selecting_services,
            probe_facts: self.probe_facts,
            image_facts: self.image_facts,
            resource_facts: self.resource_facts,
            config_references: self.config_references,
            secret_references: self.secret_references,
            relationship_confidences: self.relationship_confidences,
            warnings: self.warnings,
        }
    }

    /// Return a copy of this graph with probe facts for workload containers.
    pub fn with_probe_facts(self, probe_facts: Vec<ProbeFacts>) -> (r: Self)
        ensures
            sorted_unique_of(r@.probe_facts, probe_facts@),
            r@ == (AppGraphModel { probe_facts: r@.probe_facts, ..self@ }),
    {
        proof {
            use_type_invariant(&self);
        }
        let probe_facts = sort_unique(probe_facts);
        AppGraph {
            workload: self.workload,
            probe_facts,
            owned_pods: self.owned_pods,
            selecting_services: self.selecting_services,
            service_routes: self.service_routes,
            image_facts: self.image_facts,
            resource_facts: self.resource_facts,
            config_references: self.config_references,
            secret_references: self.secret_references,
            relationship_confidences: self.relationship_confidences,
            warnings: self.warnings,
        }
    }

    /// Return a copy of this graph with image facts for workload containers.
    pub fn with_image_facts(self, image_facts: Vec<ImageFacts>) -> (r: Self)
        ensures
            sorted_unique_of(r@.image_facts, image_facts@),
            r@ == (AppGraphModel { image_facts: r@.image_facts, ..self@ }),
    {
        proof {
            use_type_invariant(&self);
        }
        let image_facts = sort_unique(image_facts);
        AppGraph {
            workload: self.workload,
            image_facts,
            owned_pods: self.owned_pods,
            selecting_services: self.selecting_services,
            service_routes: self.service_routes,
            probe_facts: self.probe_facts,
            resource_facts: self.resource_facts,
            config_references: self.config_references,
            secret_references: self.secret_references,
            relationship_confidences: self.relationship_confidences,
            warnings: self.warnings,
        }
    }

    /// Return a copy of this graph with resource facts for workload containers.
    pub fn with_resource_facts(self, resource_facts: Vec<ResourceFacts>) -> (r: Self)
        ensures
            sorted_unique_of(r@.resource_facts, resource_facts@),
            r@ == (AppGraphModel { resource_facts: r@.resource_facts, ..self@ }),
    {
        proof {
            use_type_invariant(&self);
        }
        let resource_facts = sort_unique(resource_facts);
        AppGraph {
            workload: self.workload,
            resource_facts,
            owned_pods: self.owned_pods,
            selecting_services: self.selecting_services,
            service_routes: self.service_routes,
            probe_facts: self.probe_facts,
            image_facts: self.image_facts,
            config_references: self.config_references,
            secret_references: self.secret_references,
            relationship_confidences: self.relationship_confidences,
            warnings: self.warnings,
        }
    }

    /// Return a copy of this graph with ConfigMap metadata references.
    pub fn with_config_references(self, config_references: Vec<ConfigReference>) -> (r: Self)
        ensures
            sorted_unique_of(r@.config_references, config_references@),
            r@ == (AppGraphModel { config_references: r@.config_references, ..self@ }),
    {
        proof {
            use_type_invariant(&self);
        }
        let config_references = sort_unique(config_references);
        AppGraph {
            workload: self.workload,
            config_references,
            owned_pods: self.owned_pods,
            selecting_services: self.selecting_services,
            service_routes: self.service_routes,
            probe_facts: self.probe_facts,
            image_facts: self.image_facts,
            resource_facts: self.resource_facts,
            secret_references: self.secret_references,
            relationship_confidences: self.relationship_confidences,
            warnings: self.warnings,
        }
    }

    /// Return a copy of this graph with Secret metadata references.
    pub fn with_secret_references(self, secret_references: Vec<SecretReference>) -> (r: Self)
        ensures
            sorted_unique_of(r@.secret_references, secret_references@),
            r@ == (AppGraphModel { secret_references: r@.secret_references, ..self@ }),
    {
        proof {
            use_type_invariant(&self);
        }
        let secret_references = sort_unique(secret_references);
        AppGraph {
            workload: self.workload,
            secret_references,
            owned_pods: self.owned_pods,
            selecting_services: self.selecting_services,
            service_routes: self.service_routes,
            probe_facts: self.probe_facts,
            image_facts: self.image_facts,
            resource_facts: self.resource_facts,
            config_references: self.config_references,
            relationship_confidences: self.relationship_confidences,
            warnings: self.warnings,
        }
    }

    /// Return a copy of this graph with relationship confidence metadata.
    pub fn with_relationship_confidences(self, relationship_confidences: Vec<RelationshipConfidence>) -> (r: Self)
        ensures
            sorted_unique_of(r@.relationship_confidences, relationship_confidences@),
            r@ == (AppGraphModel { relationship_confidences: r@.relationship_confidences, ..self@ }),
    {
        proof {
            use_type_invariant(&self);
        }
        let relationship_confidences = sort_unique(relationship_confidences);
        AppGraph {
            workload: self.workload,
            relationship_confidences,
            owned_pods: self.owned_pods,
            selecting_services: self.selecting_services,
            service_routes: self.service_routes,
            probe_facts: self.probe_facts,
            image_facts: self.image_facts,
            resource_facts: self.resource_facts,
            config_references: self.config_references,
            secret_references: self.secret_references,
            warnings: self.warnings,
        }
    }

    /// Return a copy of this graph with graph-building warnings.
    pub fn with_warnings(self, warnings: Vec<AppGraphWarning>) -> (r: Self)
        ensures
            sorted_unique_of(r@.warnings, warnings@),
            r@ == (AppGraphModel { warnings: r@.warnings, ..self@ }),
    {
        proof {
            use_type_invariant(&self);
        }
        let warnings = sort_unique(warnings);
        AppGraph {
            workload: self.workload,
            warnings,
            owned_pods: self.owned_pods,
            selecting_services: self.selecting_services,
            service_routes: self.service_routes,
            probe_facts: self.probe_facts,
            image_facts: self.image_facts,
            resource_facts: self.resource_facts,
            config_references: self.config_references,
            secret_references: self.secret_references,
            relationship_confidences: self.relationship_confidences,
        }
    }

    /// Borrow the root workload for this app graph.
    pub fn workload(&self) -> (r: &WorkloadRef)
        ensures
            r@ == self@.workload,
    {
        &self.workload
    }

    /// Borrow Pods owned by the root workload in deterministic order.
    pub fn owned_pods(&self) -> (r: &[PodRef])
        ensures
            r@ == self@.owned_pods,
            strictly_sorted(r@),
    {
        proof {
            use_type_invariant(self);
        }
        self.owned_pods.as_slice()
    }

    /// Borrow Services selecting the root workload in deterministic order.
    pub fn selecting_services(&self) -> (r: &[ServiceRef])
        ensures
            r@ == self@.selecting_services,
            strictly_sorted(r@),
    {
        proof {
            use_type_invariant(self);
        }
        self.selecting_services.as_slice()
    }

    /// Borrow route references for selected Services in deterministic order.
    pub fn service_routes(&self) -> (r: &[ServiceRouteRef])
        ensures
            r@ == self@.service_routes,
            strictly_sorted(r@),
    {
        proof {
            use_type_invariant(self);
        }
        self.service_routes.as_slice()
    }

    /// Borrow probe facts for workload containers in deterministic order.
    pub fn probe_facts(&self) -> (r: &[ProbeFacts])
        ensures
            r@ == self@.probe_facts,
            strictly_sorted(r@),
    {
        proof {
            use_type_invariant(self);
        }
        self.probe_facts.as_slice()
    }

    /// Borrow image facts for workload containers in deterministic order.
    pub fn image_facts(&self) -> (r: &[ImageFacts])
        ensures
            r@ == self@.image_facts,
            strictly_sorted(r@),
    {
        proof {
            use_type_invariant(self);
        }
        self.image_facts.as_slice()
    }

    /// Borrow resource facts for workload containers in deterministic order.
    pub fn resource_facts(&self) -> (r: &[ResourceFacts])
        ensures
            r@ == self@.resource_facts,
            strictly_sorted(r@),
    {
        proof {
            use_type_invariant(self);
        }
        self.resource_facts.as_slice()
    }

    /// Borrow ConfigMap metadata references in deterministic order.
    pub fn config_references(&self) -> (r: &[ConfigReference])
        ensures
            r@ == self@.config_references,
            strictly_sorted(r@),
    {
        proof {
            use_type_invariant(self);
        }
        self.config_references.as_slice()
    }

    /// Borrow Secret metadata references in deterministic order.
    pub fn secret_references(&self) -> (r: &[SecretReference])
        ensures
            r@ == self@.secret_references,
            strictly_sorted(r@),
    {
        proof {
            use_type_invariant(self);
        }
        self.secret_references.as_slice()
    }

    /// Borrow relationship confidence metadata in deterministic order.
    pub fn relationship_confidences(&self) -> (r: &[RelationshipConfidence])
        ensures
            r@ == self@.relationship_confidences,
            strictly_sorted(r@),
    {
        proof {
            use_type_invariant(self);
        }
        self.relationship_confidences.as_slice()
    }

    /// Borrow graph-building warnings in deterministic order.
    pub fn warnings(&self) -> (r: &[AppGraphWarning])
        ensures
            r@ == self@.warnings,
            strictly_sorted(r@),
    {
        proof {
            use_type_invariant(self);
        }
        self.warnings.as_slice()
    }

}

/// Recording owned Pods depends only on which Pods are given: given the same
/// Pods in any order and with any repeats, the graph records the same Pods in
/// the same order. So setting them a second time replaces what the first
/// call recorded, never appending to it, and nothing else of the graph
/// changes: the graph set twice equals the graph set once with the second
/// Pods, its Pods compared by namespace and name.
pub proof fn lemma_owned_pods_replaced(
    g: AppGraphModel,
    first: Seq<PodRef>,
    once: AppGraphModel,
    second: Seq<PodRef>,
    twice: AppGraphModel,
    same: Seq<PodRef>,
    direct: AppGraphModel,
)
    requires
        sorted_unique_of(once.owned_pods, first),
        once == (AppGraphModel { owned_pods: once.owned_pods, ..g }),
        sorted_unique_of(twice.owned_pods, second),
        twice == (AppGraphModel { owned_pods: twice.owned_pods, ..once }),
        sorted_unique_of(direct.owned_pods, same),
        direct == (AppGraphModel { owned_pods: direct.owned_pods, ..g }),
        forall|p: PodRef| #[trigger] second.contains(p) == same.contains(p),
    ensures
        views(twice.owned_pods) == views(direct.owned_pods),
        twice == (AppGraphModel { owned_pods: twice.owned_pods, ..direct }),
{
    lemma_same_pods_same_views(twice.owned_pods, second, direct.owned_pods, same);
}

/// Two sorted lists without repeats, each made from the same Pods (in any
/// order, with any repeats), hold the same Pod references in the same order:
/// equal namespaces and names, which is what equality of Pod references
/// compares.
pub proof fn lemma_same_pods_same_views(a: Seq<PodRef>, v1: Seq<PodRef>, b: Seq<PodRef>, v2: Seq<PodRef>)
    requires
        sorted_unique_of(a, v1),
        sorted_unique_of(b, v2),
        forall|p: PodRef| #[trigger] v1.contains(p) == v2.contains(p),
    ensures
        views(a) == views(b),
{
    lemma_sorted_unique_order_determined(a, v1, b, v2);
    lemma_pod_keys_determine_views(a, b);
}

/// Pods with the same keys, in the same order, show the same references.
proof fn lemma_pod_keys_determine_views(a: Seq<PodRef>, b: Seq<PodRef>)
    requires
        keys_of(a) == keys_of(b),
    ensures
        views(a) == views(b),
{
    assert(keys_of(a).len() == a.len());
    assert(keys_of(b).len() == b.len());
    assert forall|i: int| 0 <= i < a.len() implies (#[trigger] a[i])@ == b[i]@ by {
        assert(keys_of(a)[i] == a[i].key());
        assert(keys_of(b)[i] == b[i].key());
        assert(a[i].key() == str_key(a[i]@.0) + str_key(a[i]@.1));
        assert(b[i].key() == str_key(b[i]@.0) + str_key(b[i]@.1));
        lemma_str_key_prefix_free(a[i]@.0, str_key(a[i]@.1), b[i]@.0, str_key(b[i]@.1));
        lemma_str_key_injective(a[i]@.1, b[i]@.1);
    }
    assert forall|i: int| 0 <= i < a.len() implies #[trigger] views(a)[i] == views(b)[i] by {
        assert(views(a)[i] == a[i]@);
        assert(views(b)[i] == b[i]@);
    }
    assert(views(a) =~= views(b));
}

} // verus!
