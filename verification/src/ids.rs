//! Validated identifiers and Kubernetes object references.

use vstd::prelude::*;
use crate::text::{push_str, string_of};
use crate::token::{
    lower_boundary_text, alnum_boundary_text, session_token_check, shape_message, shape_text,
    validate_session_token, validate_workload_kind, workload_kind_check, ShapeError,
};

verus! {

/// Error returned when a [`SessionId`] is not valid.
#[derive(Debug, Clone, Copy, PartialEq, Eq, Structural)]
pub enum SessionIdError {
    /// Session identifiers cannot be empty.
    Empty,
    /// Session identifiers must fit common Kubernetes limits.
    TooLong { max_len: usize },
    /// Session identifiers must start and end with a lowercase ASCII letter or digit.
    InvalidBoundary,
    /// Session identifiers only allow lowercase ASCII letters, digits, and hyphens.
    InvalidCharacter { character: char },
}

impl SessionIdError {
    /// The error for a token that failed with `e`.
    pub open spec fn of_shape(e: ShapeError) -> Self {
        match e {
            ShapeError::Empty => SessionIdError::Empty,
            ShapeError::TooLong { max_len } => SessionIdError::TooLong { max_len },
            ShapeError::InvalidBoundary => SessionIdError::InvalidBoundary,
            ShapeError::InvalidCharacter { character } => SessionIdError::InvalidCharacter { character },
        }
    }

    /// The token failure this error records.
    pub open spec fn shape(self) -> ShapeError {
        match self {
            SessionIdError::Empty => ShapeError::Empty,
            SessionIdError::TooLong { max_len } => ShapeError::TooLong { max_len },
            SessionIdError::InvalidBoundary => ShapeError::InvalidBoundary,
            SessionIdError::InvalidCharacter { character } => ShapeError::InvalidCharacter { character },
        }
    }

    /// Convert a token failure into this error.
    pub fn from_shape(e: ShapeError) -> (r: Self)
        ensures
            r == Self::of_shape(e),
            r.shape() == e,
    {
        match e {
            ShapeError::Empty => SessionIdError::Empty,
            ShapeError::TooLong { max_len } => SessionIdError::TooLong { max_len },
            ShapeError::InvalidBoundary => SessionIdError::InvalidBoundary,
            ShapeError::InvalidCharacter { character } => SessionIdError::InvalidCharacter { character },
        }
    }

    /// The human-readable message for this error.
    pub open spec fn text(self) -> Seq<char> {
        shape_text("session id"@, lower_boundary_text(), self.shape())
    }

    /// Render the human-readable message for this error.
    pub fn to_string(&self) -> (m: String)
        ensures
            m@ == self.text(),
    {
        let e = match *self {
            SessionIdError::Empty => ShapeError::Empty,
            SessionIdError::TooLong { max_len } => ShapeError::TooLong { max_len },
            SessionIdError::InvalidBoundary => ShapeError::InvalidBoundary,
            SessionIdError::InvalidCharacter { character } => ShapeError::InvalidCharacter { character },
        };
        shape_message("session id", " must start and end with a lowercase ASCII letter or digit", e)
    }
}

/// Error returned when a [`SessionName`] is not valid.
#[derive(Debug, Clone, Copy, PartialEq, Eq, Structural)]
pub enum SessionNameError {
    /// Session names cannot be empty.
    Empty,
    /// Session names must fit common Kubernetes limits.
    TooLong { max_len: usize },
    /// Session names must start and end with a lowercase ASCII letter or digit.
    InvalidBoundary,
    /// Session names only allow lowercase ASCII letters, digits, and hyphens.
    InvalidCharacter { character: char },
}

impl SessionNameError {
    /// The error for a token that failed with `e`.
    pub open spec fn of_shape(e: ShapeError) -> Self {
        match e {
            ShapeError::Empty => SessionNameError::Empty,
            ShapeError::TooLong { max_len } => SessionNameError::TooLong { max_len },
            ShapeError::InvalidBoundary => SessionNameError::InvalidBoundary,
            ShapeError::InvalidCharacter { character } => SessionNameError::InvalidCharacter { character },
        }
    }

    /// The token failure this error records.
    pub open spec fn shape(self) -> ShapeError {
        match self {
            SessionNameError::Empty => ShapeError::Empty,
            SessionNameError::TooLong { max_len } => ShapeError::TooLong { max_len },
            SessionNameError::InvalidBoundary => ShapeError::InvalidBoundary,
            SessionNameError::InvalidCharacter { character } => ShapeError::InvalidCharacter { character },
        }
    }

    /// Convert a token failure into this error.
    pub fn from_shape(e: ShapeError) -> (r: Self)
        ensures
            r == Self::of_shape(e),
            r.shape() == e,
    {
        match e {
            ShapeError::Empty => SessionNameError::Empty,
            ShapeError::TooLong { max_len } => SessionNameError::TooLong { max_len },
            ShapeError::InvalidBoundary => SessionNameError::InvalidBoundary,
            ShapeError::InvalidCharacter { character } => SessionNameError::InvalidCharacter { character },
        }
    }

    /// The human-readable message for this error.
    pub open spec fn text(self) -> Seq<char> {
        shape_text("session name"@, lower_boundary_text(), self.shape())
    }

    /// Render the human-readable message for this error.
    pub fn to_string(&self) -> (m: String)
        ensures
            m@ == self.text(),
    {
        let e = match *self {
            SessionNameError::Empty => ShapeError::Empty,
            SessionNameError::TooLong { max_len } => ShapeError::TooLong { max_len },
            SessionNameError::InvalidBoundary => ShapeError::InvalidBoundary,
            SessionNameError::InvalidCharacter { character } => ShapeError::InvalidCharacter { character },
        };
        shape_message("session name", " must start and end with a lowercase ASCII letter or digit", e)
    }
}

/// Error returned when a workload namespace or name is not valid.
#[derive(Debug, Clone, Copy, PartialEq, Eq, Structural)]
pub enum WorkloadTokenError {
    /// Namespace and name values cannot be empty.
    Empty,
    /// Namespace and name values must fit common Kubernetes limits.
    TooLong { max_len: usize },
    /// Namespace and name values must start and end with a lowercase ASCII letter or digit.
    InvalidBoundary,
    /// Namespace and name values only allow lowercase ASCII letters, digits, and hyphens.
    InvalidCharacter { character: char },
}

impl WorkloadTokenError {
    /// The error for a token that failed with `e`.
    pub open spec fn of_shape(e: ShapeError) -> Self {
        match e {
            ShapeError::Empty => WorkloadTokenError::Empty,
            ShapeError::TooLong { max_len } => WorkloadTokenError::TooLong { max_len },
            ShapeError::InvalidBoundary => WorkloadTokenError::InvalidBoundary,
            ShapeError::InvalidCharacter { character } => WorkloadTokenError::InvalidCharacter { character },
        }
    }

    /// The token failure this error records.
    pub open spec fn shape(self) -> ShapeError {
        match self {
            WorkloadTokenError::Empty => ShapeError::Empty,
            WorkloadTokenError::TooLong { max_len } => ShapeError::TooLong { max_len },
            WorkloadTokenError::InvalidBoundary => ShapeError::InvalidBoundary,
            WorkloadTokenError::InvalidCharacter { character } => ShapeError::InvalidCharacter { character },
        }
    }

    /// Convert a token failure into this error.
    pub fn from_shape(e: ShapeError) -> (r: Self)
        ensures
            r == Self::of_shape(e),
            r.shape() == e,
    {
        match e {
            ShapeError::Empty => WorkloadTokenError::Empty,
            ShapeError::TooLong { max_len } => WorkloadTokenError::TooLong { max_len },
            ShapeError::InvalidBoundary => WorkloadTokenError::InvalidBoundary,
            ShapeError::InvalidCharacter { character } => WorkloadTokenError::InvalidCharacter { character },
        }
    }

    /// The human-readable message for this error.
    pub open spec fn text(self) -> Seq<char> {
        shape_text("value"@, lower_boundary_text(), self.shape())
    }

    /// Render the human-readable message for this error.
    pub fn to_string(&self) -> (m: String)
        ensures
            m@ == self.text(),
    {
        let e = match *self {
            WorkloadTokenError::Empty => ShapeError::Empty,
            WorkloadTokenError::TooLong { max_len } => ShapeError::TooLong { max_len },
            WorkloadTokenError::InvalidBoundary => ShapeError::InvalidBoundary,
            WorkloadTokenError::InvalidCharacter { character } => ShapeError::InvalidCharacter { character },
        };
        shape_message("value", " must start and end with a lowercase ASCII letter or digit", e)
    }
}

/// Error returned when a workload kind is not valid.
#[derive(Debug, Clone, Copy, PartialEq, Eq, Structural)]
pub enum WorkloadKindError {
    /// Workload kinds cannot be empty.
    Empty,
    /// Workload kinds must fit common Kubernetes limits.
    TooLong { max_len: usize },
    /// Workload kinds must start and end with an ASCII letter or digit.
    InvalidBoundary,
    /// Workload kinds only allow ASCII letters, digits, dots, and hyphens.
    InvalidCharacter { character: char },
}

impl WorkloadKindError {
    /// The error for a token that failed with `e`.
    pub open spec fn of_shape(e: ShapeError) -> Self {
        match e {
            ShapeError::Empty => WorkloadKindError::Empty,
            ShapeError::TooLong { max_len } => WorkloadKindError::TooLong { max_len },
            ShapeError::InvalidBoundary => WorkloadKindError::InvalidBoundary,
            ShapeError::InvalidCharacter { character } => WorkloadKindError::InvalidCharacter { character },
        }
    }

    /// The token failure this error records.
    pub open spec fn shape(self) -> ShapeError {
        match self {
            WorkloadKindError::Empty => ShapeError::Empty,
            WorkloadKindError::TooLong { max_len } => ShapeError::TooLong { max_len },
            WorkloadKindError::InvalidBoundary => ShapeError::InvalidBoundary,
            WorkloadKindError::InvalidCharacter { character } => ShapeError::InvalidCharacter { character },
        }
    }

    /// Convert a token failure into this error.
    pub fn from_shape(e: ShapeError) -> (r: Self)
        ensures
            r == Self::of_shape(e),
            r.shape() == e,
    {
        match e {
            ShapeError::Empty => WorkloadKindError::Empty,
            ShapeError::TooLong { max_len } => WorkloadKindError::TooLong { max_len },
            ShapeError::InvalidBoundary => WorkloadKindError::InvalidBoundary,
            ShapeError::InvalidCharacter { character } => WorkloadKindError::InvalidCharacter { character },
        }
    }

    /// The human-readable message for this error.
    pub open spec fn text(self) -> Seq<char> {
        shape_text("workload kind"@, alnum_boundary_text(), self.shape())
    }

    /// Render the human-readable message for this error.
    pub fn to_string(&self) -> (m: String)
        ensures
            m@ == self.text(),
    {
        let e = match *self {
            WorkloadKindError::Empty => ShapeError::Empty,
            WorkloadKindError::TooLong { max_len } => ShapeError::TooLong { max_len },
            WorkloadKindError::InvalidBoundary => ShapeError::InvalidBoundary,
            WorkloadKindError::InvalidCharacter { character } => ShapeError::InvalidCharacter { character },
        };
        shape_message("workload kind", " must start and end with an ASCII letter or digit", e)
    }
}

/// Stable identifier for a Kply session.
#[derive(Debug, PartialEq, Eq, Hash, PartialOrd, Ord)]
pub struct SessionId(String);

impl View for SessionId {
    type V = Seq<char>;

    closed spec fn view(&self) -> Seq<char> {
        self.0@
    }
}

impl SessionId {
    #[verifier::type_invariant]
    spec fn well_formed(self) -> bool {
        session_token_check(self.0@) is Ok
    }

    /// Create a [`SessionId`] from a validated string value.
    pub fn new(value: &str) -> (r: Result<Self, SessionIdError>)
        ensures
            match r {
                Ok(v) => session_token_check(value@) is Ok && v@ == value@,
                Err(e) => session_token_check(value@) == Err::<(), ShapeError>(e.shape()),
            },
    {
        match validate_session_token(value) {
            Ok(()) => Ok(SessionId(string_of(value))),
            Err(e) => Err(SessionIdError::from_shape(e)),
        }
    }

    /// Borrow the session identifier as a string slice.
    pub fn as_str(&self) -> (r: &str)
        ensures
            r@ == self@,
            session_token_check(r@) is Ok,
    {
        proof {
            use_type_invariant(self);
        }
        self.0.as_str()
    }

    /// The session identifier as shown to users.
    pub fn to_string(&self) -> (r: String)
        ensures
            r@ == self@,
    {
        self.0.clone()
    }

}

impl Clone for SessionId {
    fn clone(&self) -> (r: Self)
        ensures
            r@ == self@,
    {
        proof {
            use_type_invariant(self);
        }
        SessionId(self.0.clone())
    }
}

impl From<SessionId> for String {
    fn from(value: SessionId) -> (r: String)
        ensures
            r@ == value@,
    {
        value.0
    }
}

impl vstd::std_specs::convert::FromSpecImpl<SessionId> for String {
    open spec fn obeys_from_spec() -> bool {
        true
    }

    closed spec fn from_spec(v: SessionId) -> String {
        v.0
    }
}

impl TryFrom<String> for SessionId {
    type Error = SessionIdError;

    fn try_from(value: String) -> (r: Result<Self, Self::Error>)
        ensures
            match r {
                Ok(v) => session_token_check(value@) is Ok && v@ == value@,
                Err(e) => session_token_check(value@) == Err::<(), ShapeError>(e.shape()),
            },
    {
        match validate_session_token(value.as_str()) {
            Ok(()) => Ok(SessionId(value)),
            Err(e) => Err(SessionIdError::from_shape(e)),
        }
    }
}

impl vstd::std_specs::convert::TryFromSpecImpl<String> for SessionId {
    open spec fn obeys_try_from_spec() -> bool {
        true
    }

    closed spec fn try_from_spec(v: String) -> Result<Self, SessionIdError> {
        match session_token_check(v@) {
            Ok(()) => Ok(SessionId(v)),
            Err(e) => Err(SessionIdError::of_shape(e)),
        }
    }
}

/// Stable user-facing name for a Kply session.
#[derive(Debug, PartialEq, Eq, Hash, PartialOrd, Ord)]
pub struct SessionName(String);

impl View for SessionName {
    type V = Seq<char>;

    closed spec fn view(&self) -> Seq<char> {
        self.0@
    }
}

impl SessionName {
    #[verifier::type_invariant]
    spec fn well_formed(self) -> bool {
        session_token_check(self.0@) is Ok
    }

    /// Create a [`SessionName`] from a validated string value.
    pub fn new(value: &str) -> (r: Result<Self, SessionNameError>)
        ensures
            match r {
                Ok(v) => session_token_check(value@) is Ok && v@ == value@,
                Err(e) => session_token_check(value@) == Err::<(), ShapeError>(e.shape()),
            },
    {
        match validate_session_token(value) {
            Ok(()) => Ok(SessionName(string_of(value))),
            Err(e) => Err(SessionNameError::from_shape(e)),
        }
    }

    /// Borrow the session name as a string slice.
    pub fn as_str(&self) -> (r: &str)
        ensures
            r@ == self@,
            session_token_check(r@) is Ok,
    {
        proof {
            use_type_invariant(self);
        }
        self.0.as_str()
    }

    /// The session name as shown to users.
    pub fn to_string(&self) -> (r: String)
        ensures
            r@ == self@,
    {
        self.0.clone()
    }

}

impl Clone for SessionName {
    fn clone(&self) -> (r: Self)
        ensures
            r@ == self@,
    {
        proof {
            use_type_invariant(self);
        }
        SessionName(self.0.clone())
    }
}

impl From<SessionName> for String {
    fn from(value: SessionName) -> (r: String)
        ensures
            r@ == value@,
    {
        value.0
    }
}

impl vstd::std_specs::convert::FromSpecImpl<SessionName> for String {
    open spec fn obeys_from_spec() -> bool {
        true
    }

    closed spec fn from_spec(v: SessionName) -> String {
        v.0
    }
}

impl TryFrom<String> for SessionName {
    type Error = SessionNameError;

    fn try_from(value: String) -> (r: Result<Self, Self::Error>)
        ensures
            match r {
                Ok(v) => session_token_check(value@) is Ok && v@ == value@,
                Err(e) => session_token_check(value@) == Err::<(), ShapeError>(e.shape()),
            },
    {
        match validate_session_token(value.as_str()) {
            Ok(()) => Ok(SessionName(value)),
            Err(e) => Err(SessionNameError::from_shape(e)),
        }
    }
}

impl vstd::std_specs::convert::TryFromSpecImpl<String> for SessionName {
    open spec fn obeys_try_from_spec() -> bool {
        true
    }

    closed spec fn try_from_spec(v: String) -> Result<Self, SessionNameError> {
        match session_token_check(v@) {
            Ok(()) => Ok(SessionName(v)),
            Err(e) => Err(SessionNameError::of_shape(e)),
        }
    }
}

/// Kubernetes workload target for a Kply session.
#[derive(Debug, PartialEq, Eq, Hash, PartialOrd, Ord)]
pub struct WorkloadRef {
    namespace: String,
    kind: String,
    name: String,
}

/// Error returned when a [`WorkloadRef`] is not valid.
#[derive(Debug, Clone, Copy, PartialEq, Eq, Structural)]
pub enum WorkloadRefError {
    /// Workload namespaces use the token rules of workloads.
    Namespace(WorkloadTokenError),
    /// Workload kinds use the kind rules of workloads.
    Kind(WorkloadKindError),
    /// Workload names use the token rules of workloads.
    Name(WorkloadTokenError),
}

/// The first failing part of a [`WorkloadRef`], checked in declaration order.
pub open spec fn workload_ref_check(namespace: Seq<char>, kind: Seq<char>, name: Seq<char>) -> Result<(), WorkloadRefError> {
    match session_token_check(namespace) {
        Err(e) => Err(WorkloadRefError::Namespace(WorkloadTokenError::of_shape(e))),
        Ok(_) => {
            match workload_kind_check(kind) {
                Err(e) => Err(WorkloadRefError::Kind(WorkloadKindError::of_shape(e))),
                Ok(_) => {
                    match session_token_check(name) {
                        Err(e) => Err(WorkloadRefError::Name(WorkloadTokenError::of_shape(e))),
                        Ok(_) => {
                            Ok(())
                        },
                    }
                },
            }
        },
    }
}

impl View for WorkloadRef {
    type V = (Seq<char>, Seq<char>, Seq<char>);

    closed spec fn view(&self) -> (Seq<char>, Seq<char>, Seq<char>) {
        (self.namespace@, self.kind@, self.name@)
    }
}

impl WorkloadRef {
    #[verifier::type_invariant]
    spec fn well_formed(self) -> bool {
        workload_ref_check(self.namespace@, self.kind@, self.name@) is Ok
    }

    /// Create a [`WorkloadRef`] from validated parts.
    pub fn new(namespace: &str, kind: &str, name: &str) -> (r: Result<Self, WorkloadRefError>)
        ensures
            match r {
                Ok(v) => workload_ref_check(namespace@, kind@, name@) is Ok && v@ == (namespace@, kind@, name@),
                Err(e) => workload_ref_check(namespace@, kind@, name@) == Err::<(), WorkloadRefError>(e),
            },
    {
        if let Err(e) = validate_session_token(namespace) {
            return Err(WorkloadRefError::Namespace(WorkloadTokenError::from_shape(e)));
        }
        if let Err(e) = validate_workload_kind(kind) {
            return Err(WorkloadRefError::Kind(WorkloadKindError::from_shape(e)));
        }
        if let Err(e) = validate_session_token(name) {
            return Err(WorkloadRefError::Name(WorkloadTokenError::from_shape(e)));
        }
        Ok(WorkloadRef { namespace: string_of(namespace), kind: string_of(kind), name: string_of(name) })
    }

    /// Borrow the workload namespace.
    pub fn namespace(&self) -> (r: &str)
        ensures
            r@ == self@.0,
            session_token_check(r@) is Ok,
    {
        proof {
            use_type_invariant(self);
        }
        self.namespace.as_str()
    }

    /// Borrow the workload kind.
    pub fn kind(&self) -> (r: &str)
        ensures
            r@ == self@.1,
            workload_kind_check(r@) is Ok,
    {
        proof {
            use_type_invariant(self);
        }
        self.kind.as_str()
    }

    /// Borrow the workload name.
    pub fn name(&self) -> (r: &str)
        ensures
            r@ == self@.2,
            session_token_check(r@) is Ok,
    {
        proof {
            use_type_invariant(self);
        }
        self.name.as_str()
    }

    /// The parts joined with `/`, as shown to users.
    pub fn to_string(&self) -> (r: String)
        ensures
            r@ == self@.0 + "/"@ + self@.1 + "/"@ + self@.2,
    {
        let mut r = self.namespace.clone();
        push_str(&mut r, "/");
        push_str(&mut r, self.kind.as_str());
        push_str(&mut r, "/");
        push_str(&mut r, self.name.as_str());
        r
    }

}

impl Clone for WorkloadRef {
    fn clone(&self) -> (r: Self)
        ensures
            r@ == self@,
    {
        proof {
            use_type_invariant(self);
        }
        WorkloadRef { namespace: self.namespace.clone(), kind: self.kind.clone(), name: self.name.clone() }
    }
}

impl WorkloadRefError {
    /// The human-readable message for this error.
    pub open spec fn text(self) -> Seq<char> {
        match self {
            WorkloadRefError::Namespace(e) => "invalid workload namespace: "@ + e.text(),
            WorkloadRefError::Kind(e) => "invalid workload kind: "@ + e.text(),
            WorkloadRefError::Name(e) => "invalid workload name: "@ + e.text(),
        }
    }

    /// Render the human-readable message for this error.
    pub fn to_string(&self) -> (m: String)
        ensures
            m@ == self.text(),
    {
        match self {
            WorkloadRefError::Namespace(e) => {
                let mut m = string_of("invalid workload namespace: ");
                let inner = e.to_string();
                push_str(&mut m, inner.as_str());
                m
            },
            WorkloadRefError::Kind(e) => {
                let mut m = string_of("invalid workload kind: ");
                let inner = e.to_string();
                push_str(&mut m, inner.as_str());
                m
            },
            WorkloadRefError::Name(e) => {
                let mut m = string_of("invalid workload name: ");
                let inner = e.to_string();
                push_str(&mut m, inner.as_str());
                m
            },
        }
    }
}

/// Namespaced Kubernetes resource planned for a Kply session.
#[derive(Debug, PartialEq, Eq, Hash, PartialOrd, Ord)]
pub struct KubernetesResourceRef {
    namespace: String,
    kind: String,
    name: String,
}

/// Error returned when a [`KubernetesResourceRef`] is not valid.
#[derive(Debug, Clone, Copy, PartialEq, Eq, Structural)]
pub enum KubernetesResourceRefError {
    /// Kubernetes resource namespaces use the token rules of workloads.
    Namespace(WorkloadTokenError),
    /// Kubernetes resource kinds use the kind rules of workloads.
    Kind(WorkloadKindError),
    /// Kubernetes resource names use the token rules of workloads.
    Name(WorkloadTokenError),
}

/// The first failing part of a [`KubernetesResourceRef`], checked in declaration order.
pub open spec fn kubernetes_resource_ref_check(namespace: Seq<char>, kind: Seq<char>, name: Seq<char>) -> Result<(), KubernetesResourceRefError> {
    match session_token_check(namespace) {
        Err(e) => Err(KubernetesResourceRefError::Namespace(WorkloadTokenError::of_shape(e))),
        Ok(_) => {
            match workload_kind_check(kind) {
                Err(e) => Err(KubernetesResourceRefError::Kind(WorkloadKindError::of_shape(e))),
                Ok(_) => {
                    match session_token_check(name) {
                        Err(e) => Err(KubernetesResourceRefError::Name(WorkloadTokenError::of_shape(e))),
                        Ok(_) => {
                            Ok(())
                        },
                    }
                },
            }
        },
    }
}

impl View for KubernetesResourceRef {
    type V = (Seq<char>, Seq<char>, Seq<char>);

    closed spec fn view(&self) -> (Seq<char>, Seq<char>, Seq<char>) {
        (self.namespace@, self.kind@, self.name@)
    }
}

impl KubernetesResourceRef {
    #[verifier::type_invariant]
    spec fn well_formed(self) -> bool {
        kubernetes_resource_ref_check(self.namespace@, self.kind@, self.name@) is Ok
    }

    /// Create a [`KubernetesResourceRef`] from validated parts.
    pub fn new(namespace: &str, kind: &str, name: &str) -> (r: Result<Self, KubernetesResourceRefError>)
        ensures
            match r {
                Ok(v) => kubernetes_resource_ref_check(namespace@, kind@, name@) is Ok && v@ == (namespace@, kind@, name@),
                Err(e) => kubernetes_resource_ref_check(namespace@, kind@, name@) == Err::<(), KubernetesResourceRefError>(e),
            },
    {
        if let Err(e) = validate_session_token(namespace) {
            return Err(KubernetesResourceRefError::Namespace(WorkloadTokenError::from_shape(e)));
        }
        if let Err(e) = validate_workload_kind(kind) {
            return Err(KubernetesResourceRefError::Kind(WorkloadKindError::from_shape(e)));
        }
        if let Err(e) = validate_session_token(name) {
            return Err(KubernetesResourceRefError::Name(WorkloadTokenError::from_shape(e)));
        }
        Ok(KubernetesResourceRef { namespace: string_of(namespace), kind: string_of(kind), name: string_of(name) })
    }

    /// Borrow the kubernetes resource namespace.
    pub fn namespace(&self) -> (r: &str)
        ensures
            r@ == self@.0,
            session_token_check(r@) is Ok,
    {
        proof {
            use_type_invariant(self);
        }
        self.namespace.as_str()
    }

    /// Borrow the kubernetes resource kind.
    pub fn kind(&self) -> (r: &str)
        ensures
            r@ == self@.1,
            workload_kind_check(r@) is Ok,
    {
        proof {
            use_type_invariant(self);
        }
        self.kind.as_str()
    }

    /// Borrow the kubernetes resource name.
    pub fn name(&self) -> (r: &str)
        ensures
            r@ == self@.2,
            session_token_check(r@) is Ok,
    {
        proof {
            use_type_invariant(self);
        }
        self.name.as_str()
    }

    /// The parts joined with `/`, as shown to users.
    pub fn to_string(&self) -> (r: String)
        ensures
            r@ == self@.0 + "/"@ + self@.1 + "/"@ + self@.2,
    {
        let mut r = self.namespace.clone();
        push_str(&mut r, "/");
        push_str(&mut r, self.kind.as_str());
        push_str(&mut r, "/");
        push_str(&mut r, self.name.as_str());
        r
    }

}

impl Clone for KubernetesResourceRef {
    fn clone(&self) -> (r: Self)
        ensures
            r@ == self@,
    {
        proof {
            use_type_invariant(self);
        }
        KubernetesResourceRef { namespace: self.namespace.clone(), kind: self.kind.clone(), name: self.name.clone() }
    }
}

impl KubernetesResourceRefError {
    /// The human-readable message for this error.
    pub open spec fn text(self) -> Seq<char> {
        match self {
            KubernetesResourceRefError::Namespace(e) => "invalid kubernetes resource namespace: "@ + e.text(),
            KubernetesResourceRefError::Kind(e) => "invalid kubernetes resource kind: "@ + e.text(),
            KubernetesResourceRefError::Name(e) => "invalid kubernetes resource name: "@ + e.text(),
        }
    }

    /// Render the human-readable message for this error.
    pub fn to_string(&self) -> (m: String)
        ensures
            m@ == self.text(),
    {
        match self {
            KubernetesResourceRefError::Namespace(e) => {
                let mut m = string_of("invalid kubernetes resource namespace: ");
                let inner = e.to_string();
                push_str(&mut m, inner.as_str());
                m
            },
            KubernetesResourceRefError::Kind(e) => {
                let mut m = string_of("invalid kubernetes resource kind: ");
                let inner = e.to_string();
                push_str(&mut m, inner.as_str());
                m
            },
            KubernetesResourceRefError::Name(e) => {
                let mut m = string_of("invalid kubernetes resource name: ");
                let inner = e.to_string();
                push_str(&mut m, inner.as_str());
                m
            },
        }
    }
}

/// Kubernetes Pod reference used by the app graph model.
#[derive(Debug, PartialEq, Eq, Hash, PartialOrd, Ord)]
pub struct PodRef {
    namespace: String,
    name: String,
}

/// Error returned when a [`PodRef`] is not valid.
#[derive(Debug, Clone, Copy, PartialEq, Eq, Structural)]
pub enum PodRefError {
    /// Pod namespaces use the token rules of workloads.
    Namespace(WorkloadTokenError),
    /// Pod names use the token rules of workloads.
    Name(WorkloadTokenError),
}

/// The first failing part of a [`PodRef`], checked in declaration order.
pub open spec fn pod_ref_check(namespace: Seq<char>, name: Seq<char>) -> Result<(), PodRefError> {
    match session_token_check(namespace) {
        Err(e) => Err(PodRefError::Namespace(WorkloadTokenError::of_shape(e))),
        Ok(_) => {
            match session_token_check(name) {
                Err(e) => Err(PodRefError::Name(WorkloadTokenError::of_shape(e))),
                Ok(_) => {
                    Ok(())
                },
            }
        },
    }
}

impl View for PodRef {
    type V = (Seq<char>, Seq<char>);

    closed spec fn view(&self) -> (Seq<char>, Seq<char>) {
        (self.namespace@, self.name@)
    }
}

impl PodRef {
    #[verifier::type_invariant]
    spec fn well_formed(self) -> bool {
        pod_ref_check(self.namespace@, self.name@) is Ok
    }

    /// Create a [`PodRef`] from validated parts.
    pub fn new(namespace: &str, name: &str) -> (r: Result<Self, PodRefError>)
        ensures
            match r {
                Ok(v) => pod_ref_check(namespace@, name@) is Ok && v@ == (namespace@, name@),
                Err(e) => pod_ref_check(namespace@, name@) == Err::<(), PodRefError>(e),
            },
    {
        if let Err(e) = validate_session_token(namespace) {
            return Err(PodRefError::Namespace(WorkloadTokenError::from_shape(e)));
        }
        if let Err(e) = validate_session_token(name) {
            return Err(PodRefError::Name(WorkloadTokenError::from_shape(e)));
        }
        Ok(PodRef { namespace: string_of(namespace), name: string_of(name) })
    }

    /// Borrow the pod namespace.
    pub fn namespace(&self) -> (r: &str)
        ensures
            r@ == self@.0,
            session_token_check(r@) is Ok,
    {
        proof {
            use_type_invariant(self);
        }
        self.namespace.as_str()
    }

    /// Borrow the pod name.
    pub fn name(&self) -> (r: &str)
        ensures
            r@ == self@.1,
            session_token_check(r@) is Ok,
    {
        proof {
            use_type_invariant(self);
        }
        self.name.as_str()
    }

    /// The parts joined with `/`, as shown to users.
    pub fn to_string(&self) -> (r: String)
        ensures
            r@ == self@.0 + "/"@ + self@.1,
    {
        let mut r = self.namespace.clone();
        push_str(&mut r, "/");
        push_str(&mut r, self.name.as_str());
        r
    }

}

impl Clone for PodRef {
    fn clone(&self) -> (r: Self)
        ensures
            r@ == self@,
    {
        proof {
            use_type_invariant(self);
        }
        PodRef { namespace: self.namespace.clone(), name: self.name.clone() }
    }
}

impl PodRefError {
    /// The human-readable message for this error.
    pub open spec fn text(self) -> Seq<char> {
        match self {
            PodRefError::Namespace(e) => "invalid pod namespace: "@ + e.text(),
            PodRefError::Name(e) => "invalid pod name: "@ + e.text(),
        }
    }

    /// Render the human-readable message for this error.
    pub fn to_string(&self) -> (m: String)
        ensures
            m@ == self.text(),
    {
        match self {
            PodRefError::Namespace(e) => {
                let mut m = string_of("invalid pod namespace: ");
                let inner = e.to_string();
                push_str(&mut m, inner.as_str());
                m
            },
            PodRefError::Name(e) => {
                let mut m = string_of("invalid pod name: ");
                let inner = e.to_string();
                push_str(&mut m, inner.as_str());
                m
            },
        }
    }
}

/// Stable Kubernetes Service reference.
#[derive(Debug, PartialEq, Eq, Hash, PartialOrd, Ord)]
pub struct ServiceRef {
    namespace: String,
    name: String,
}

/// Error returned when a [`ServiceRef`] is not valid.
#[derive(Debug, Clone, Copy, PartialEq, Eq, Structural)]
pub enum ServiceRefError {
    /// Service namespaces use the token rules of workloads.
    Namespace(WorkloadTokenError),
    /// Service names use the token rules of workloads.
    Name(WorkloadTokenError),
}

/// The first failing part of a [`ServiceRef`], checked in declaration order.
pub open spec fn service_ref_check(namespace: Seq<char>, name: Seq<char>) -> Result<(), ServiceRefError> {
    match session_token_check(namespace) {
        Err(e) => Err(ServiceRefError::Namespace(WorkloadTokenError::of_shape(e))),
        Ok(_) => {
            match session_token_check(name) {
                Err(e) => Err(ServiceRefError::Name(WorkloadTokenError::of_shape(e))),
                Ok(_) => {
                    Ok(())
                },
            }
        },
    }
}

impl View for ServiceRef {
    type V = (Seq<char>, Seq<char>);

    closed spec fn view(&self) -> (Seq<char>, Seq<char>) {
        (self.namespace@, self.name@)
    }
}

impl ServiceRef {
    #[verifier::type_invariant]
    spec fn well_formed(self) -> bool {
        service_ref_check(self.namespace@, self.name@) is Ok
    }

    /// Create a [`ServiceRef`] from validated parts.
    pub fn new(namespace: &str, name: &str) -> (r: Result<Self, ServiceRefError>)
        ensures
            match r {
                Ok(v) => service_ref_check(namespace@, name@) is Ok && v@ == (namespace@, name@),
                Err(e) => service_ref_check(namespace@, name@) == Err::<(), ServiceRefError>(e),
            },
    {
        if let Err(e) = validate_session_token(namespace) {
            return Err(ServiceRefError::Namespace(WorkloadTokenError::from_shape(e)));
        }
        if let Err(e) = validate_session_token(name) {
            return Err(ServiceRefError::Name(WorkloadTokenError::from_shape(e)));
        }
        Ok(ServiceRef { namespace: string_of(namespace), name: string_of(name) })
    }

    /// Borrow the service namespace.
    pub fn namespace(&self) -> (r: &str)
        ensures
            r@ == self@.0,
            session_token_check(r@) is Ok,
    {
        proof {
            use_type_invariant(self);
        }
        self.namespace.as_str()
    }

    /// Borrow the service name.
    pub fn name(&self) -> (r: &str)
        ensures
            r@ == self@.1,
            session_token_check(r@) is Ok,
    {
        proof {
            use_type_invariant(self);
        }
        self.name.as_str()
    }

    /// The parts joined with `/`, as shown to users.
    pub fn to_string(&self) -> (r: String)
        ensures
            r@ == self@.0 + "/"@ + self@.1,
    {
        let mut r = self.namespace.clone();
        push_str(&mut r, "/");
        push_str(&mut r, self.name.as_str());
        r
    }

}

impl Clone for ServiceRef {
    fn clone(&self) -> (r: Self)
        ensures
            r@ == self@,
    {
        proof {
            use_type_invariant(self);
        }
        ServiceRef { namespace: self.namespace.clone(), name: self.name.clone() }
    }
}

impl ServiceRefError {
    /// The human-readable message for this error.
    pub open spec fn text(self) -> Seq<char> {
        match self {
            ServiceRefError::Namespace(e) => "invalid service namespace: "@ + e.text(),
            ServiceRefError::Name(e) => "invalid service name: "@ + e.text(),
        }
    }

    /// Render the human-readable message for this error.
    pub fn to_string(&self) -> (m: String)
        ensures
            m@ == self.text(),
    {
        match self {
            ServiceRefError::Namespace(e) => {
                let mut m = string_of("invalid service namespace: ");
                let inner = e.to_string();
                push_str(&mut m, inner.as_str());
                m
            },
            ServiceRefError::Name(e) => {
                let mut m = string_of("invalid service name: ");
                let inner = e.to_string();
                push_str(&mut m, inner.as_str());
                m
            },
        }
    }
}

/// Stable Kubernetes ConfigMap reference.
#[derive(Debug, PartialEq, Eq, Hash, PartialOrd, Ord)]
pub struct ConfigMapRef {
    namespace: String,
    name: String,
}

/// Error returned when a [`ConfigMapRef`] is not valid.
#[derive(Debug, Clone, Copy, PartialEq, Eq, Structural)]
pub enum ConfigMapRefError {
    /// Configmap namespaces use the token rules of workloads.
    Namespace(WorkloadTokenError),
    /// Configmap names use the token rules of workloads.
    Name(WorkloadTokenError),
}

/// The first failing part of a [`ConfigMapRef`], checked in declaration order.
pub open spec fn config_map_ref_check(namespace: Seq<char>, name: Seq<char>) -> Result<(), ConfigMapRefError> {
    match session_token_check(namespace) {
        Err(e) => Err(ConfigMapRefError::Namespace(WorkloadTokenError::of_shape(e))),
        Ok(_) => {
            match session_token_check(name) {
                Err(e) => Err(ConfigMapRefError::Name(WorkloadTokenError::of_shape(e))),
                Ok(_) => {
                    Ok(())
                },
            }
        },
    }
}

impl View for ConfigMapRef {
    type V = (Seq<char>, Seq<char>);

    closed spec fn view(&self) -> (Seq<char>, Seq<char>) {
        (self.namespace@, self.name@)
    }
}

impl ConfigMapRef {
    #[verifier::type_invariant]
    spec fn well_formed(self) -> bool {
        config_map_ref_check(self.namespace@, self.name@) is Ok
    }

    /// Create a [`ConfigMapRef`] from validated parts.
    pub fn new(namespace: &str, name: &str) -> (r: Result<Self, ConfigMapRefError>)
        ensures
            match r {
                Ok(v) => config_map_ref_check(namespace@, name@) is Ok && v@ == (namespace@, name@),
                Err(e) => config_map_ref_check(namespace@, name@) == Err::<(), ConfigMapRefError>(e),
            },
    {
        if let Err(e) = validate_session_token(namespace) {
            return Err(ConfigMapRefError::Namespace(WorkloadTokenError::from_shape(e)));
        }
        if let Err(e) = validate_session_token(name) {
            return Err(ConfigMapRefError::Name(WorkloadTokenError::from_shape(e)));
        }
        Ok(ConfigMapRef { namespace: string_of(namespace), name: string_of(name) })
    }

    /// Borrow the configmap namespace.
    pub fn namespace(&self) -> (r: &str)
        ensures
            r@ == self@.0,
            session_token_check(r@) is Ok,
    {
        proof {
            use_type_invariant(self);
        }
        self.namespace.as_str()
    }

    /// Borrow the configmap name.
    pub fn name(&self) -> (r: &str)
        ensures
            r@ == self@.1,
            session_token_check(r@) is Ok,
    {
        proof {
            use_type_invariant(self);
        }
        self.name.as_str()
    }

    /// The parts joined with `/`, as shown to users.
    pub fn to_string(&self) -> (r: String)
        ensures
            r@ == self@.0 + "/"@ + self@.1,
    {
        let mut r = self.namespace.clone();
        push_str(&mut r, "/");
        push_str(&mut r, self.name.as_str());
        r
    }

}

impl Clone for ConfigMapRef {
    fn clone(&self) -> (r: Self)
        ensures
            r@ == self@,
    {
        proof {
            use_type_invariant(self);
        }
        ConfigMapRef { namespace: self.namespace.clone(), name: self.name.clone() }
    }
}

impl ConfigMapRefError {
    /// The human-readable message for this error.
    pub open spec fn text(self) -> Seq<char> {
        match self {
            ConfigMapRefError::Namespace(e) => "invalid configmap namespace: "@ + e.text(),
            ConfigMapRefError::Name(e) => "invalid configmap name: "@ + e.text(),
        }
    }

    /// Render the human-readable message for this error.
    pub fn to_string(&self) -> (m: String)
        ensures
            m@ == self.text(),
    {
        match self {
            ConfigMapRefError::Namespace(e) => {
                let mut m = string_of("invalid configmap namespace: ");
                let inner = e.to_string();
                push_str(&mut m, inner.as_str());
                m
            },
            ConfigMapRefError::Name(e) => {
                let mut m = string_of("invalid configmap name: ");
                let inner = e.to_string();
                push_str(&mut m, inner.as_str());
                m
            },
        }
    }
}

/// Stable Kubernetes Secret metadata reference.
#[derive(Debug, PartialEq, Eq, Hash, PartialOrd, Ord)]
pub struct SecretMetadataRef {
    namespace: String,
    name: String,
}

/// Error returned when a [`SecretMetadataRef`] is not valid.
#[derive(Debug, Clone, Copy, PartialEq, Eq, Structural)]
pub enum SecretMetadataRefError {
    /// Secret namespaces use the token rules of workloads.
    Namespace(WorkloadTokenError),
    /// Secret names use the token rules of workloads.
    Name(WorkloadTokenError),
}

/// The first failing part of a [`SecretMetadataRef`], checked in declaration order.
pub open spec fn secret_metadata_ref_check(namespace: Seq<char>, name: Seq<char>) -> Result<(), SecretMetadataRefError> {
    match session_token_check(namespace) {
        Err(e) => Err(SecretMetadataRefError::Namespace(WorkloadTokenError::of_shape(e))),
        Ok(_) => {
            match session_token_check(name) {
                Err(e) => Err(SecretMetadataRefError::Name(WorkloadTokenError::of_shape(e))),
                Ok(_) => {
                    Ok(())
                },
            }
        },
    }
}

impl View for SecretMetadataRef {
    type V = (Seq<char>, Seq<char>);

    closed spec fn view(&self) -> (Seq<char>, Seq<char>) {
        (self.namespace@, self.name@)
    }
}

impl SecretMetadataRef {
    #[verifier::type_invariant]
    spec fn well_formed(self) -> bool {
        secret_metadata_ref_check(self.namespace@, self.name@) is Ok
    }

    /// Create a [`SecretMetadataRef`] from validated parts.
    pub fn new(namespace: &str, name: &str) -> (r: Result<Self, SecretMetadataRefError>)
        ensures
            match r {
                Ok(v) => secret_metadata_ref_check(namespace@, name@) is Ok && v@ == (namespace@, name@),
                Err(e) => secret_metadata_ref_check(namespace@, name@) == Err::<(), SecretMetadataRefError>(e),
            },
    {
        if let Err(e) = validate_session_token(namespace) {
            return Err(SecretMetadataRefError::Namespace(WorkloadTokenError::from_shape(e)));
        }
        if let Err(e) = validate_session_token(name) {
            return Err(SecretMetadataRefError::Name(WorkloadTokenError::from_shape(e)));
        }
        Ok(SecretMetadataRef { namespace: string_of(namespace), name: string_of(name) })
    }

    /// Borrow the secret namespace.
    pub fn namespace(&self) -> (r: &str)
        ensures
            r@ == self@.0,
            session_token_check(r@) is Ok,
    {
        proof {
            use_type_invariant(self);
        }
        self.namespace.as_str()
    }

    /// Borrow the secret name.
    pub fn name(&self) -> (r: &str)
        ensures
            r@ == self@.1,
            session_token_check(r@) is Ok,
    {
        proof {
            use_type_invariant(self);
        }
        self.name.as_str()
    }

    /// The parts joined with `/`, as shown to users.
    pub fn to_string(&self) -> (r: String)
        ensures
            r@ == self@.0 + "/"@ + self@.1,
    {
        let mut r = self.namespace.clone();
        push_str(&mut r, "/");
        push_str(&mut r, self.name.as_str());
        r
    }

}

impl Clone for SecretMetadataRef {
    fn clone(&self) -> (r: Self)
        ensures
            r@ == self@,
    {
        proof {
            use_type_invariant(self);
        }
        SecretMetadataRef { namespace: self.namespace.clone(), name: self.name.clone() }
    }
}

impl SecretMetadataRefError {
    /// The human-readable message for this error.
    pub open spec fn text(self) -> Seq<char> {
        match self {
            SecretMetadataRefError::Namespace(e) => "invalid secret namespace: "@ + e.text(),
            SecretMetadataRefError::Name(e) => "invalid secret name: "@ + e.text(),
        }
    }

    /// Render the human-readable message for this error.
    pub fn to_string(&self) -> (m: String)
        ensures
            m@ == self.text(),
    {
        match self {
            SecretMetadataRefError::Namespace(e) => {
                let mut m = string_of("invalid secret namespace: ");
                let inner = e.to_string();
                push_str(&mut m, inner.as_str());
                m
            },
            SecretMetadataRefError::Name(e) => {
                let mut m = string_of("invalid secret name: ");
                let inner = e.to_string();
                push_str(&mut m, inner.as_str());
                m
            },
        }
    }
}

/// Stable Kubernetes route reference.
#[derive(Debug, PartialEq, Eq, Hash, PartialOrd, Ord)]
pub struct RouteRef {
    namespace: String,
    kind: String,
    name: String,
}

/// Error returned when a [`RouteRef`] is not valid.
#[derive(Debug, Clone, Copy, PartialEq, Eq, Structural)]
pub enum RouteRefError {
    /// Route namespaces use the token rules of workloads.
    Namespace(WorkloadTokenError),
    /// Route kinds use the kind rules of workloads.
    Kind(WorkloadKindError),
    /// Route names use the token rules of workloads.
    Name(WorkloadTokenError),
}

/// The first failing part of a [`RouteRef`], checked in declaration order.
pub open spec fn route_ref_check(namespace: Seq<char>, kind: Seq<char>, name: Seq<char>) -> Result<(), RouteRefError> {
    match session_token_check(namespace) {
        Err(e) => Err(RouteRefError::Namespace(WorkloadTokenError::of_shape(e))),
        Ok(_) => {
            match workload_kind_check(kind) {
                Err(e) => Err(RouteRefError::Kind(WorkloadKindError::of_shape(e))),
                Ok(_) => {
                    match session_token_check(name) {
                        Err(e) => Err(RouteRefError::Name(WorkloadTokenError::of_shape(e))),
                        Ok(_) => {
                            Ok(())
                        },
                    }
                },
            }
        },
    }
}

impl View for RouteRef {
    type V = (Seq<char>, Seq<char>, Seq<char>);

    closed spec fn view(&self) -> (Seq<char>, Seq<char>, Seq<char>) {
        (self.namespace@, self.kind@, self.name@)
    }
}

impl RouteRef {
    #[verifier::type_invariant]
    spec fn well_formed(self) -> bool {
        route_ref_check(self.namespace@, self.kind@, self.name@) is Ok
    }

    /// Create a [`RouteRef`] from validated parts.
    pub fn new(namespace: &str, kind: &str, name: &str) -> (r: Result<Self, RouteRefError>)
        ensures
            match r {
                Ok(v) => route_ref_check(namespace@, kind@, name@) is Ok && v@ == (namespace@, kind@, name@),
                Err(e) => route_ref_check(namespace@, kind@, name@) == Err::<(), RouteRefError>(e),
            },
    {
        if let Err(e) = validate_session_token(namespace) {
            return Err(RouteRefError::Namespace(WorkloadTokenError::from_shape(e)));
        }
        if let Err(e) = validate_workload_kind(kind) {
            return Err(RouteRefError::Kind(WorkloadKindError::from_shape(e)));
        }
        if let Err(e) = validate_session_token(name) {
            return Err(RouteRefError::Name(WorkloadTokenError::from_shape(e)));
        }
        Ok(RouteRef { namespace: string_of(namespace), kind: string_of(kind), name: string_of(name) })
    }

    /// Borrow the route namespace.
    pub fn namespace(&self) -> (r: &str)
        ensures
            r@ == self@.0,
            session_token_check(r@) is Ok,
    {
        proof {
            use_type_invariant(self);
        }
        self.namespace.as_str()
    }

    /// Borrow the route kind.
    pub fn kind(&self) -> (r: &str)
        ensures
            r@ == self@.1,
            workload_kind_check(r@) is Ok,
    {
        proof {
            use_type_invariant(self);
        }
        self.kind.as_str()
    }

    /// Borrow the route name.
    pub fn name(&self) -> (r: &str)
        ensures
            r@ == self@.2,
            session_token_check(r@) is Ok,
    {
        proof {
            use_type_invariant(self);
        }
        self.name.as_str()
    }

    /// The parts joined with `/`, as shown to users.
    pub fn to_string(&self) -> (r: String)
        ensures
            r@ == self@.0 + "/"@ + self@.1 + "/"@ + self@.2,
    {
        let mut r = self.namespace.clone();
        push_str(&mut r, "/");
        push_str(&mut r, self.kind.as_str());
        push_str(&mut r, "/");
        push_str(&mut r, self.name.as_str());
        r
    }

}

impl Clone for RouteRef {
    fn clone(&self) -> (r: Self)
        ensures
            r@ == self@,
    {
        proof {
            use_type_invariant(self);
        }
        RouteRef { namespace: self.namespace.clone(), kind: self.kind.clone(), name: self.name.clone() }
    }
}

impl RouteRefError {
    /// The human-readable message for this error.
    pub open spec fn text(self) -> Seq<char> {
        match self {
            RouteRefError::Namespace(e) => "invalid route namespace: "@ + e.text(),
            RouteRefError::Kind(e) => "invalid route kind: "@ + e.text(),
            RouteRefError::Name(e) => "invalid route name: "@ + e.text(),
        }
    }

    /// Render the human-readable message for this error.
    pub fn to_string(&self) -> (m: String)
        ensures
            m@ == self.text(),
    {
        match self {
            RouteRefError::Namespace(e) => {
                let mut m = string_of("invalid route namespace: ");
                let inner = e.to_string();
                push_str(&mut m, inner.as_str());
                m
            },
            RouteRefError::Kind(e) => {
                let mut m = string_of("invalid route kind: ");
                let inner = e.to_string();
                push_str(&mut m, inner.as_str());
                m
            },
            RouteRefError::Name(e) => {
                let mut m = string_of("invalid route name: ");
                let inner = e.to_string();
                push_str(&mut m, inner.as_str());
                m
            },
        }
    }
}

} // verus!
