//! Session lifecycle: statuses and their transitions, allowed operations,
//! plans, reports, and audit events.

use vstd::prelude::*;
use crate::graph::WorkloadView;
use crate::ids::{KubernetesResourceRef, SessionId, SessionName, WorkloadRef};
use crate::metadata::{conflict_at, conflict_free, keys_sorted, last_per_key, merge_entries, MetadataEntry};
use crate::order::{sort_unique, sorted_unique_of, strictly_sorted, views, Keyed};
use crate::text::{push_str, string_of};
use crate::values::{ImageRef, RouteSelector, SelectorModel, TimeToLive};

verus! {

/// Lifecycle status for a Kply session.
#[derive(Debug, Clone, Copy, PartialEq, Eq, Hash, PartialOrd, Ord, Structural)]
pub enum SessionStatus {
    /// Session inputs have been accepted but no cluster preparation has started.
    Planned,
    /// Kply is preparing sandbox resources or route isolation.
    Preparing,
    /// The sandbox session is available for agent or test traffic.
    Active,
    /// Kply is running checks against the active session.
    Verifying,
    /// The session cannot proceed until an explicit issue is resolved.
    Blocked,
    /// The session passed checks and is ready for promotion or human approval.
    Ready,
    /// Kply has removed the temporary session resources.
    CleanedUp,
    /// The session failed and requires inspection.
    Failed,
}

/// The lifecycle: which status may follow which.
pub open spec fn transition_allowed(from: SessionStatus, to: SessionStatus) -> bool {
    match (from, to) {
        (SessionStatus::Planned, SessionStatus::Preparing) => true,
        (SessionStatus::Planned, SessionStatus::Failed) => true,
        (SessionStatus::Preparing, SessionStatus::Active) => true,
        (SessionStatus::Preparing, SessionStatus::Blocked) => true,
        (SessionStatus::Preparing, SessionStatus::Failed) => true,
        (SessionStatus::Active, SessionStatus::Verifying) => true,
        (SessionStatus::Active, SessionStatus::Blocked) => true,
        (SessionStatus::Active, SessionStatus::CleanedUp) => true,
        (SessionStatus::Active, SessionStatus::Failed) => true,
        (SessionStatus::Verifying, SessionStatus::Ready) => true,
        (SessionStatus::Verifying, SessionStatus::Blocked) => true,
        (SessionStatus::Verifying, SessionStatus::Failed) => true,
        (SessionStatus::Blocked, SessionStatus::Preparing) => true,
        (SessionStatus::Blocked, SessionStatus::Active) => true,
        (SessionStatus::Blocked, SessionStatus::CleanedUp) => true,
        (SessionStatus::Blocked, SessionStatus::Failed) => true,
        (SessionStatus::Ready, SessionStatus::CleanedUp) => true,
        (SessionStatus::Ready, SessionStatus::Failed) => true,
        (SessionStatus::Failed, SessionStatus::CleanedUp) => true,
        _ => false,
    }
}

/// Every status in declaration order.
pub open spec fn all_statuses() -> Seq<SessionStatus> {
    seq![
        SessionStatus::Planned,
        SessionStatus::Preparing,
        SessionStatus::Active,
        SessionStatus::Verifying,
        SessionStatus::Blocked,
        SessionStatus::Ready,
        SessionStatus::CleanedUp,
        SessionStatus::Failed,
    ]
}

/// Statuses a session report may record.
pub open spec fn reportable(status: SessionStatus) -> bool {
    status == SessionStatus::Blocked || status == SessionStatus::Ready || status
        == SessionStatus::CleanedUp || status == SessionStatus::Failed
}

impl SessionStatus {
    /// The stable snake_case status name.
    pub open spec fn name(self) -> Seq<char> {
        match self {
            SessionStatus::Planned => "planned"@,
            SessionStatus::Preparing => "preparing"@,
            SessionStatus::Active => "active"@,
            SessionStatus::Verifying => "verifying"@,
            SessionStatus::Blocked => "blocked"@,
            SessionStatus::Ready => "ready"@,
            SessionStatus::CleanedUp => "cleaned_up"@,
            SessionStatus::Failed => "failed"@,
        }
    }

    /// Return every session lifecycle status in declaration order, including terminal states.
    pub fn all() -> (r: &'static [SessionStatus])
        ensures
            r@ == all_statuses(),
    {
        let r: &'static [SessionStatus] = &[
            SessionStatus::Planned,
            SessionStatus::Preparing,
            SessionStatus::Active,
            SessionStatus::Verifying,
            SessionStatus::Blocked,
            SessionStatus::Ready,
            SessionStatus::CleanedUp,
            SessionStatus::Failed,
        ];
        assert(r@ =~= all_statuses());
        r
    }

    /// Return the stable snake_case status name used in agent-readable output.
    pub fn as_str(&self) -> (r: &'static str)
        ensures
            r@ == self.name(),
    {
        match self {
            SessionStatus::Planned => "planned",
            SessionStatus::Preparing => "preparing",
            SessionStatus::Active => "active",
            SessionStatus::Verifying => "verifying",
            SessionStatus::Blocked => "blocked",
            SessionStatus::Ready => "ready",
            SessionStatus::CleanedUp => "cleaned_up",
            SessionStatus::Failed => "failed",
        }
    }

    /// The status name as shown to users.
    pub fn to_string(&self) -> (r: String)
        ensures
            r@ == self.name(),
    {
        string_of(self.as_str())
    }

    /// Return whether this status may transition to the next [`SessionStatus`].
    pub fn can_transition_to(self, next: SessionStatus) -> (r: bool)
        ensures
            r == transition_allowed(self, next),
    {
        match (self, next) {
            (SessionStatus::Planned, SessionStatus::Preparing) => true,
            (SessionStatus::Planned, SessionStatus::Failed) => true,
            (SessionStatus::Preparing, SessionStatus::Active) => true,
            (SessionStatus::Preparing, SessionStatus::Blocked) => true,
            (SessionStatus::Preparing, SessionStatus::Failed) => true,
            (SessionStatus::Active, SessionStatus::Verifying) => true,
            (SessionStatus::Active, SessionStatus::Blocked) => true,
            (SessionStatus::Active, SessionStatus::CleanedUp) => true,
            (SessionStatus::Active, SessionStatus::Failed) => true,
            (SessionStatus::Verifying, SessionStatus::Ready) => true,
            (SessionStatus::Verifying, SessionStatus::Blocked) => true,
            (SessionStatus::Verifying, SessionStatus::Failed) => true,
            (SessionStatus::Blocked, SessionStatus::Preparing) => true,
            (SessionStatus::Blocked, SessionStatus::Active) => true,
            (SessionStatus::Blocked, SessionStatus::CleanedUp) => true,
            (SessionStatus::Blocked, SessionStatus::Failed) => true,
            (SessionStatus::Ready, SessionStatus::CleanedUp) => true,
            (SessionStatus::Ready, SessionStatus::Failed) => true,
            (SessionStatus::Failed, SessionStatus::CleanedUp) => true,
            _ => false,
        }
    }

    /// Validate that this status may transition to the next [`SessionStatus`].
    pub fn validate_transition_to(self, next: SessionStatus) -> (r: Result<
        (),
        SessionTransitionError,
    >)
        ensures
            r is Ok <==> transition_allowed(self, next),
            r is Err ==> r == Err::<(), SessionTransitionError>(
                SessionTransitionError::Invalid { from: self, to: next },
            ),
    {
        if self.can_transition_to(next) {
            Ok(())
        } else {
            Err(SessionTransitionError::Invalid { from: self, to: next })
        }
    }
}

/// A cleaned-up session is final: no status may follow it.
pub proof fn lemma_cleaned_up_is_terminal(next: SessionStatus)
    ensures
        !transition_allowed(SessionStatus::CleanedUp, next),
{
}

/// No status may follow itself.
pub proof fn lemma_no_self_transition(status: SessionStatus)
    ensures
        !transition_allowed(status, status),
{
}

/// Every status other than cleaned-up has at least one status that may follow it.
pub proof fn lemma_non_terminal_has_successor(status: SessionStatus)
    requires
        status != SessionStatus::CleanedUp,
    ensures
        exists|next: SessionStatus| transition_allowed(status, next),
{
    if status == SessionStatus::Failed {
        assert(transition_allowed(status, SessionStatus::CleanedUp));
    } else {
        assert(transition_allowed(status, SessionStatus::Failed));
    }
}

/// From every status a session can always be brought to cleaned-up: directly,
/// or by failing first.
pub proof fn lemma_cleanup_always_reachable(status: SessionStatus)
    requires
        status != SessionStatus::CleanedUp,
    ensures
        transition_allowed(status, SessionStatus::CleanedUp) || (transition_allowed(
            status,
            SessionStatus::Failed,
        ) && transition_allowed(SessionStatus::Failed, SessionStatus::CleanedUp)),
{
}

/// The session lifecycle, read by the status a session moves to: no session
/// returns to planned; preparation starts from a plan or resumes after a
/// block; a session becomes active once prepared or unblocked; checks run
/// only on an active session and only passing checks make it ready; any
/// session with work under way (preparing, active, verifying) may become
/// blocked; resources are cleaned up from an active, blocked, ready or failed
/// session; and every session that has neither failed nor been cleaned up may
/// fail.
pub proof fn lemma_lifecycle_by_target(from: SessionStatus, to: SessionStatus)
    ensures
        to == SessionStatus::Planned ==> !transition_allowed(from, to),
        to == SessionStatus::Preparing ==> (transition_allowed(from, to) <==> (from
            == SessionStatus::Planned || from == SessionStatus::Blocked)),
        to == SessionStatus::Active ==> (transition_allowed(from, to) <==> (from
            == SessionStatus::Preparing || from == SessionStatus::Blocked)),
        to == SessionStatus::Verifying ==> (transition_allowed(from, to) <==> from
            == SessionStatus::Active),
        to == SessionStatus::Ready ==> (transition_allowed(from, to) <==> from
            == SessionStatus::Verifying),
        to == SessionStatus::Blocked ==> (transition_allowed(from, to) <==> (from
            == SessionStatus::Preparing || from == SessionStatus::Active || from
            == SessionStatus::Verifying)),
        to == SessionStatus::CleanedUp ==> (transition_allowed(from, to) <==> (from
            == SessionStatus::Active || from == SessionStatus::Blocked || from == SessionStatus::Ready
            || from == SessionStatus::Failed)),
        to == SessionStatus::Failed ==> (transition_allowed(from, to) <==> (from
            != SessionStatus::CleanedUp && from != SessionStatus::Failed)),
{
}

/// Error returned when a session status transition is not valid.
#[derive(Debug, Clone, Copy, PartialEq, Eq, Structural)]
pub enum SessionTransitionError {
    /// The requested transition is not allowed by the session lifecycle.
    Invalid {
        /// Current session status.
        from: SessionStatus,
        /// Requested next session status.
        to: SessionStatus,
    },
}

impl SessionTransitionError {
    /// The human-readable message for this error.
    pub open spec fn text(self) -> Seq<char> {
        match self {
            SessionTransitionError::Invalid { from, to } => "cannot transition session from `"@
                + from.name() + "` to `"@ + to.name() + "`"@,
        }
    }

    /// Render the human-readable message for this error.
    pub fn to_string(&self) -> (m: String)
        ensures
            m@ == self.text(),
    {
        match self {
            SessionTransitionError::Invalid { from, to } => {
                let mut m = string_of("cannot transition session from `");
                push_str(&mut m, from.as_str());
                push_str(&mut m, "` to `");
                push_str(&mut m, to.as_str());
                push_str(&mut m, "`");
                m
            },
        }
    }
}

/// Audit event kind for Kply session history.
#[derive(Debug, Clone, Copy, PartialEq, Eq, Hash, PartialOrd, Ord, Structural)]
pub enum SessionEventKind {
    /// A session plan was created.
    Planned,
    /// Temporary sandbox resources are being prepared.
    Preparing,
    /// The session became active for test traffic.
    Active,
    /// Session verification started.
    Verifying,
    /// The session became blocked.
    Blocked,
    /// The session became ready for approval or promotion.
    Ready,
    /// Temporary session resources were cleaned up.
    CleanedUp,
    /// The session failed.
    Failed,
}

/// Every event kind in declaration order.
pub open spec fn all_event_kinds() -> Seq<SessionEventKind> {
    seq![
        SessionEventKind::Planned,
        SessionEventKind::Preparing,
        SessionEventKind::Active,
        SessionEventKind::Verifying,
        SessionEventKind::Blocked,
        SessionEventKind::Ready,
        SessionEventKind::CleanedUp,
        SessionEventKind::Failed,
    ]
}

impl SessionEventKind {
    /// The status an event of this kind records.
    pub open spec fn status_of(self) -> SessionStatus {
        match self {
            SessionEventKind::Planned => SessionStatus::Planned,
            SessionEventKind::Preparing => SessionStatus::Preparing,
            SessionEventKind::Active => SessionStatus::Active,
            SessionEventKind::Verifying => SessionStatus::Verifying,
            SessionEventKind::Blocked => SessionStatus::Blocked,
            SessionEventKind::Ready => SessionStatus::Ready,
            SessionEventKind::CleanedUp => SessionStatus::CleanedUp,
            SessionEventKind::Failed => SessionStatus::Failed,
        }
    }

    /// The stable snake_case event kind name: the name of its status.
    pub open spec fn name(self) -> Seq<char> {
        self.status_of().name()
    }

    /// Return every known session event kind in declaration order.
    pub fn all() -> (r: &'static [SessionEventKind])
        ensures
            r@ == all_event_kinds(),
    {
        let r: &'static [SessionEventKind] = &[
            SessionEventKind::Planned,
            SessionEventKind::Preparing,
            SessionEventKind::Active,
            SessionEventKind::Verifying,
            SessionEventKind::Blocked,
            SessionEventKind::Ready,
            SessionEventKind::CleanedUp,
            SessionEventKind::Failed,
        ];
        assert(r@ =~= all_event_kinds());
        r
    }

    /// Return the stable snake_case event kind name used in agent-readable output.
    pub fn as_str(&self) -> (r: &'static str)
        ensures
            r@ == self.name(),
    {
        match self {
            SessionEventKind::Planned => "planned",
            SessionEventKind::Preparing => "preparing",
            SessionEventKind::Active => "active",
            SessionEventKind::Verifying => "verifying",
            SessionEventKind::Blocked => "blocked",
            SessionEventKind::Ready => "ready",
            SessionEventKind::CleanedUp => "cleaned_up",
            SessionEventKind::Failed => "failed",
        }
    }

    /// The event kind name as shown to users.
    pub fn to_string(&self) -> (r: String)
        ensures
            r@ == self.name(),
    {
        string_of(self.as_str())
    }

    /// Return the [`SessionStatus`] represented by this event kind.
    pub fn status(&self) -> (r: SessionStatus)
        ensures
            r == self.status_of(),
    {
        match self {
            SessionEventKind::Planned => SessionStatus::Planned,
            SessionEventKind::Preparing => SessionStatus::Preparing,
            SessionEventKind::Active => SessionStatus::Active,
            SessionEventKind::Verifying => SessionStatus::Verifying,
            SessionEventKind::Blocked => SessionStatus::Blocked,
            SessionEventKind::Ready => SessionStatus::Ready,
            SessionEventKind::CleanedUp => SessionStatus::CleanedUp,
            SessionEventKind::Failed => SessionStatus::Failed,
        }
    }
}

/// Event kinds and statuses correspond one to one: each status is recorded by
/// exactly one event kind.
pub proof fn lemma_event_kind_status_bijective(a: SessionEventKind, b: SessionEventKind, s: SessionStatus)
    ensures
        a.status_of() == b.status_of() ==> a == b,
        exists|k: SessionEventKind| k.status_of() == s,
{
    let k = match s {
        SessionStatus::Planned => SessionEventKind::Planned,
        SessionStatus::Preparing => SessionEventKind::Preparing,
        SessionStatus::Active => SessionEventKind::Active,
        SessionStatus::Verifying => SessionEventKind::Verifying,
        SessionStatus::Blocked => SessionEventKind::Blocked,
        SessionStatus::Ready => SessionEventKind::Ready,
        SessionStatus::CleanedUp => SessionEventKind::CleanedUp,
        SessionStatus::Failed => SessionEventKind::Failed,
    };
    assert(k.status_of() == s);
}

/// Deterministic audit event for Kply session history.
#[derive(Debug, PartialEq, Eq, Hash, PartialOrd, Ord)]
pub struct SessionEvent {
    session_id: SessionId,
    sequence: u64,
    kind: SessionEventKind,
    status: SessionStatus,
}

impl View for SessionEvent {
    type V = (Seq<char>, u64, SessionEventKind, SessionStatus);

    closed spec fn view(&self) -> (Seq<char>, u64, SessionEventKind, SessionStatus) {
        (self.session_id@, self.sequence, self.kind, self.status)
    }
}

impl SessionEvent {
    #[verifier::type_invariant]
    spec fn well_formed(self) -> bool {
        self.status == self.kind.status_of()
    }

    /// Create a [`SessionEvent`] from a session id, sequence, and event kind;
    /// the event records the status of its kind.
    pub fn new(session_id: SessionId, sequence: u64, kind: SessionEventKind) -> (r: Self)
        ensures
            r@ == (session_id@, sequence, kind, kind.status_of()),
    {
        let status = kind.status();
        SessionEvent { session_id, sequence, kind, status }
    }

    /// Borrow the event [`SessionId`].
    pub fn session_id(&self) -> (r: &SessionId)
        ensures
            r@ == self@.0,
    {
        &self.session_id
    }

    /// Return the event sequence number.
    pub fn sequence(&self) -> (r: u64)
        ensures
            r == self@.1,
    {
        self.sequence
    }

    /// Return the [`SessionEventKind`].
    pub fn kind(&self) -> (r: SessionEventKind)
        ensures
            r == self@.2,
    {
        self.kind
    }

    /// Return the event [`SessionStatus`], always the status of its kind.
    pub fn status(&self) -> (r: SessionStatus)
        ensures
            r == self@.3,
            r == self@.2.status_of(),
    {
        proof {
            use_type_invariant(self);
        }
        self.status
    }
}

impl Clone for SessionEvent {
    fn clone(&self) -> (r: Self)
        ensures
            r@ == self@,
    {
        proof {
            use_type_invariant(self);
        }
        SessionEvent {
            session_id: self.session_id.clone(),
            sequence: self.sequence,
            kind: self.kind,
            status: self.status,
        }
    }
}


/// Operation that a Kply session policy may allow.
#[derive(Debug, Clone, Copy, PartialEq, Eq, Hash, PartialOrd, Ord, Structural)]
pub enum SessionOperation {
    /// Read workload and cluster state without mutating resources.
    Inspect,
    /// Produce a dry-run session plan.
    Plan,
    /// Create or update temporary sandbox resources.
    Prepare,
    /// Configure temporary test traffic routing.
    Route,
    /// Run checks against the active sandbox session.
    Verify,
    /// Remove temporary session resources.
    Cleanup,
    /// Promote a verified change outside the sandbox boundary.
    Promote,
}

/// Every operation in declaration order.
pub open spec fn all_operations() -> Seq<SessionOperation> {
    seq![
        SessionOperation::Inspect,
        SessionOperation::Plan,
        SessionOperation::Prepare,
        SessionOperation::Route,
        SessionOperation::Verify,
        SessionOperation::Cleanup,
        SessionOperation::Promote,
    ]
}

/// Operations allowed by the default sandbox policy: all but promotion.
pub open spec fn sandbox_operations() -> Seq<SessionOperation> {
    seq![
        SessionOperation::Inspect,
        SessionOperation::Plan,
        SessionOperation::Prepare,
        SessionOperation::Route,
        SessionOperation::Verify,
        SessionOperation::Cleanup,
    ]
}

/// How many times `o` occurs in `s`.
pub open spec fn count_of(s: Seq<SessionOperation>, o: SessionOperation) -> nat
    decreases s.len(),
{
    if s.len() == 0 {
        0
    } else {
        count_of(s.drop_last(), o) + if s.last() == o {
            1nat
        } else {
            0nat
        }
    }
}

/// Operations strictly increase in declaration order along `s`.
pub open spec fn operations_sorted(s: Seq<SessionOperation>) -> bool {
    forall|i: int, j: int| 0 <= i < j < s.len() ==> (#[trigger] s[i]).index() < (#[trigger] s[j]).index()
}

impl SessionOperation {
    /// Position of the operation in declaration order.
    pub open spec fn index(self) -> nat {
        match self {
            SessionOperation::Inspect => 0,
            SessionOperation::Plan => 1,
            SessionOperation::Prepare => 2,
            SessionOperation::Route => 3,
            SessionOperation::Verify => 4,
            SessionOperation::Cleanup => 5,
            SessionOperation::Promote => 6,
        }
    }

    /// The stable snake_case operation name.
    pub open spec fn name(self) -> Seq<char> {
        match self {
            SessionOperation::Inspect => "inspect"@,
            SessionOperation::Plan => "plan"@,
            SessionOperation::Prepare => "prepare"@,
            SessionOperation::Route => "route"@,
            SessionOperation::Verify => "verify"@,
            SessionOperation::Cleanup => "cleanup"@,
            SessionOperation::Promote => "promote"@,
        }
    }

    /// Return every known session operation in declaration order.
    pub fn all() -> (r: &'static [SessionOperation])
        ensures
            r@ == all_operations(),
    {
        let r: &'static [SessionOperation] = &[
            SessionOperation::Inspect,
            SessionOperation::Plan,
            SessionOperation::Prepare,
            SessionOperation::Route,
            SessionOperation::Verify,
            SessionOperation::Cleanup,
            SessionOperation::Promote,
        ];
        assert(r@ =~= all_operations());
        r
    }

    /// Return the stable snake_case operation name used in agent-readable output.
    pub fn as_str(&self) -> (r: &'static str)
        ensures
            r@ == self.name(),
    {
        match self {
            SessionOperation::Inspect => "inspect",
            SessionOperation::Plan => "plan",
            SessionOperation::Prepare => "prepare",
            SessionOperation::Route => "route",
            SessionOperation::Verify => "verify",
            SessionOperation::Cleanup => "cleanup",
            SessionOperation::Promote => "promote",
        }
    }

    /// The operation name as shown to users.
    pub fn to_string(&self) -> (r: String)
        ensures
            r@ == self.name(),
    {
        string_of(self.as_str())
    }

    /// Position of the operation in declaration order.
    fn position(self) -> (r: usize)
        ensures
            r == self.index(),
    {
        match self {
            SessionOperation::Inspect => 0,
            SessionOperation::Plan => 1,
            SessionOperation::Prepare => 2,
            SessionOperation::Route => 3,
            SessionOperation::Verify => 4,
            SessionOperation::Cleanup => 5,
            SessionOperation::Promote => 6,
        }
    }

    /// The operation at a position in declaration order.
    fn at(i: usize) -> (r: SessionOperation)
        requires
            i < 7,
        ensures
            r.index() == i,
            r == all_operations()[i as int],
    {
        if i == 0 {
            SessionOperation::Inspect
        } else if i == 1 {
            SessionOperation::Plan
        } else if i == 2 {
            SessionOperation::Prepare
        } else if i == 3 {
            SessionOperation::Route
        } else if i == 4 {
            SessionOperation::Verify
        } else if i == 5 {
            SessionOperation::Cleanup
        } else {
            SessionOperation::Promote
        }
    }
}

/// Two operations with the same position are the same operation.
proof fn lemma_index_injective(a: SessionOperation, b: SessionOperation)
    ensures
        a.index() == b.index() ==> a == b,
{
}

/// An operation occurs in `s` exactly when it is counted there.
proof fn lemma_count_contains(s: Seq<SessionOperation>, o: SessionOperation)
    ensures
        s.contains(o) <==> count_of(s, o) > 0,
    decreases s.len(),
{
    if s.len() > 0 {
        lemma_count_contains(s.drop_last(), o);
        if s.drop_last().contains(o) {
            let i = choose|i: int| 0 <= i < s.drop_last().len() && s.drop_last()[i] == o;
            assert(s[i] == o);
        }
        if s.contains(o) && s.last() != o {
            let i = choose|i: int| 0 <= i < s.len() && s[i] == o;
            assert(s.drop_last()[i] == o);
        }
    }
}

/// Allowed operation set for a Kply session.
#[derive(Debug, PartialEq, Eq, Hash)]
pub struct SessionPolicy {
    allowed_operations: Vec<SessionOperation>,
}

impl View for SessionPolicy {
    type V = Seq<SessionOperation>;

    closed spec fn view(&self) -> Seq<SessionOperation> {
        self.allowed_operations@
    }
}

impl SessionPolicy {
    #[verifier::type_invariant]
    spec fn well_formed(self) -> bool {
        self.allowed_operations@.len() > 0 && operations_sorted(self.allowed_operations@)
    }

    /// Create a [`SessionPolicy`] from a non-empty list of unique operations,
    /// kept in declaration order. An empty list is refused, and so is a list
    /// that repeats an operation; the first repeated operation in declaration
    /// order is reported.
    pub fn new(allowed_operations: Vec<SessionOperation>) -> (r: Result<Self, SessionPolicyError>)
        ensures
            match r {
                Err(SessionPolicyError::Empty) => allowed_operations@.len() == 0,
                Err(SessionPolicyError::Duplicate { operation }) => allowed_operations@.len() > 0
                    && count_of(allowed_operations@, operation) >= 2 && forall|o: SessionOperation|
                    o.index() < operation.index() ==> count_of(allowed_operations@, o) <= 1,
                Ok(p) => allowed_operations@.len() > 0 && (forall|o: SessionOperation|
                    count_of(allowed_operations@, o) <= 1) && operations_sorted(p@) && (forall|
                    o: SessionOperation,
                | #[trigger] p@.contains(o) <==> allowed_operations@.contains(o)),
            },
    {
        let ops = allowed_operations;
        assert(ops@ == allowed_operations@);
        if ops.len() == 0 {
            return Err(SessionPolicyError::Empty);
        }
        let mut counts: Vec<usize> = vec![0, 0, 0, 0, 0, 0, 0];
        let n = ops.len();
        for i in 0..n
            invariant
                n == ops@.len(),
                counts@.len() == 7,
                forall|j: int| 0 <= j < 7 ==> #[trigger] counts@[j] == count_of(ops@.take(i as int), all_operations()[j]),
                forall|j: int| 0 <= j < 7 ==> #[trigger] counts@[j] <= i,
        {
            assert(ops@.take(i + 1).drop_last() =~= ops@.take(i as int));
            let p = ops[i].position();
            let c = counts[p];
            counts.set(p, c + 1);
            assert forall|j: int| 0 <= j < 7 implies #[trigger] counts@[j] == count_of(ops@.take(i + 1), all_operations()[j]) by {
                lemma_index_injective(ops@[i as int], all_operations()[j]);
            }
        }
        assert(ops@.take(n as int) =~= ops@);
        let ghost all = all_operations();
        assert forall|o: SessionOperation| true implies #[trigger] all[o.index() as int] == o by {
        }
        let mut k: usize = 0;
        while k < 7
            invariant
                ops@ == allowed_operations@,
                ops@.len() > 0,
                all == all_operations(),
                counts@.len() == 7,
                forall|j: int| 0 <= j < 7 ==> #[trigger] counts@[j] == count_of(ops@, all[j]),
                forall|o: SessionOperation| #[trigger] all[o.index() as int] == o,
                k <= 7,
                forall|j: int| 0 <= j < k ==> #[trigger] counts@[j] <= 1,
            decreases 7 - k,
        {
            if counts[k] >= 2 {
                let operation = SessionOperation::at(k);
                proof {
                    assert forall|o: SessionOperation| o.index() < operation.index() implies count_of(ops@, o) <= 1 by {
                        assert(counts@[o.index() as int] <= 1);
                    }
                }
                return Err(SessionPolicyError::Duplicate { operation });
            }
            k = k + 1;
        }
        let mut out: Vec<SessionOperation> = Vec::new();
        let mut j: usize = 0;
        while j < 7
            invariant
                counts@.len() == 7,
                forall|q: int| 0 <= q < 7 ==> #[trigger] counts@[q] == count_of(ops@, all[q]),
                forall|q: int| 0 <= q < 7 ==> #[trigger] counts@[q] <= 1,
                forall|o: SessionOperation| #[trigger] all[o.index() as int] == o,
                j <= 7,
                operations_sorted(out@),
                forall|q: int| 0 <= q < out@.len() ==> (#[trigger] out@[q]).index() < j,
                forall|o: SessionOperation| o.index() < j ==> (#[trigger] out@.contains(o) <==> counts@[o.index() as int] == 1),
                forall|o: SessionOperation| o.index() >= j ==> !(#[trigger] out@.contains(o)),
            decreases 7 - j,
        {
            if counts[j] == 1 {
                let o = SessionOperation::at(j);
                let ghost before = out@;
                out.push(o);
                proof {
                    assert forall|x: SessionOperation| x.index() < j + 1 implies (#[trigger] out@.contains(x) <==> counts@[x.index() as int] == 1) by {
                        if x.index() == j {
                            lemma_index_injective(x, o);
                            assert(out@[before.len() as int] == o);
                        } else {
                            if out@.contains(x) {
                                let q = choose|q: int| 0 <= q < out@.len() && out@[q] == x;
                                if q == before.len() {
                                    lemma_index_injective(x, o);
                                } else {
                                    assert(before[q] == x);
                                }
                            }
                            if before.contains(x) {
                                let q = choose|q: int| 0 <= q < before.len() && before[q] == x;
                                assert(out@[q] == x);
                            }
                        }
                    }
                    assert forall|x: SessionOperation| x.index() >= j + 1 implies !(#[trigger] out@.contains(x)) by {
                        if out@.contains(x) {
                            let q = choose|q: int| 0 <= q < out@.len() && out@[q] == x;
                            if q < before.len() {
                                assert(before[q] == x);
                            }
                        }
                    }
                }
            } else {
                proof {
                    assert forall|x: SessionOperation| x.index() < j + 1 implies (#[trigger] out@.contains(x) <==> counts@[x.index() as int] == 1) by {
                        if x.index() == j {
                            assert(!out@.contains(x));
                        }
                    }
                }
            }
            j = j + 1;
        }
        proof {
            assert forall|o: SessionOperation| count_of(ops@, o) <= 1 by {
                assert(counts@[o.index() as int] <= 1);
            }
            let o0 = ops@[0];
            lemma_count_contains(ops@, o0);
            assert(counts@[o0.index() as int] == count_of(ops@, o0));
            assert(out@.contains(o0));
            assert forall|o: SessionOperation| #[trigger] out@.contains(o) <==> ops@.contains(o) by {
                lemma_count_contains(ops@, o);
                assert(counts@[o.index() as int] == count_of(ops@, o));
            }
        }
        Ok(SessionPolicy { allowed_operations: out })
    }

    /// Create the default sandbox-only [`SessionPolicy`], which allows every
    /// operation except promotion.
    pub fn sandbox() -> (r: Self)
        ensures
            r@ == sandbox_operations(),
    {
        let allowed_operations = vec![
            SessionOperation::Inspect,
            SessionOperation::Plan,
            SessionOperation::Prepare,
            SessionOperation::Route,
            SessionOperation::Verify,
            SessionOperation::Cleanup,
        ];
        assert(allowed_operations@ =~= sandbox_operations());
        SessionPolicy { allowed_operations }
    }

    /// Borrow the policy's allowed operations in stable order.
    pub fn allowed_operations(&self) -> (r: &[SessionOperation])
        ensures
            r@ == self@,
            r@.len() > 0,
            operations_sorted(r@),
    {
        proof {
            use_type_invariant(self);
        }
        self.allowed_operations.as_slice()
    }

    /// Return whether the policy allows the given operation.
    pub fn allows(&self, operation: SessionOperation) -> (r: bool)
        ensures
            r == self@.contains(operation),
    {
        let n = self.allowed_operations.len();
        for i in 0..n
            invariant
                n == self@.len(),
                forall|j: int| 0 <= j < i ==> self@[j] != operation,
        {
            if self.allowed_operations[i] == operation {
                assert(self@[i as int] == operation);
                return true;
            }
        }
        false
    }
}

impl Clone for SessionPolicy {
    fn clone(&self) -> (r: Self)
        ensures
            r@ == self@,
    {
        proof {
            use_type_invariant(self);
        }
        let mut out: Vec<SessionOperation> = Vec::new();
        let n = self.allowed_operations.len();
        for i in 0..n
            invariant
                n == self@.len(),
                out@ == self@.take(i as int),
        {
            out.push(self.allowed_operations[i]);
            assert(out@ =~= self@.take(i + 1));
        }
        assert(out@ =~= self@);
        SessionPolicy { allowed_operations: out }
    }
}

impl Default for SessionPolicy {
    fn default() -> (r: Self)
        ensures
            r@ == sandbox_operations(),
    {
        SessionPolicy::sandbox()
    }
}

/// Error returned when a [`SessionPolicy`] is not valid.
#[derive(Debug, Clone, Copy, PartialEq, Eq, Structural)]
pub enum SessionPolicyError {
    /// Session policies must allow at least one operation.
    Empty,
    /// Session policies cannot contain the same operation more than once.
    Duplicate { operation: SessionOperation },
}

impl SessionPolicyError {
    /// The human-readable message for this error.
    pub open spec fn text(self) -> Seq<char> {
        match self {
            SessionPolicyError::Empty => "session policy cannot be empty"@,
            SessionPolicyError::Duplicate { operation } =>
                "session policy contains duplicate operation `"@ + operation.name() + "`"@,
        }
    }

    /// Render the human-readable message for this error.
    pub fn to_string(&self) -> (m: String)
        ensures
            m@ == self.text(),
    {
        match self {
            SessionPolicyError::Empty => string_of("session policy cannot be empty"),
            SessionPolicyError::Duplicate { operation } => {
                let mut m = string_of("session policy contains duplicate operation `");
                push_str(&mut m, operation.as_str());
                push_str(&mut m, "`");
                m
            },
        }
    }
}

/// What a [`SessionPlan`] records.
pub struct SessionPlanModel {
    /// The session identifier.
    pub id: Seq<char>,
    /// The session name.
    pub name: Seq<char>,
    /// The target workload.
    pub workload: WorkloadView,
    /// The proposed sandbox image.
    pub image: Seq<char>,
    /// The optional session lifetime.
    pub time_to_live: Option<Seq<char>>,
    /// Planned resources in key order.
    pub planned_resources: Seq<WorkloadView>,
    /// The optional test traffic selector.
    pub route_selector: Option<SelectorModel>,
    /// The allowed operations.
    pub policy: Seq<SessionOperation>,
    /// The plan status.
    pub status: SessionStatus,
    /// Planned labels in key order.
    pub planned_labels: Seq<(Seq<char>, Seq<char>)>,
    /// Planned annotations in key order.
    pub planned_annotations: Seq<(Seq<char>, Seq<char>)>,
}

/// The contents of an optional lifetime.
pub open spec fn ttl_view(o: Option<TimeToLive>) -> Option<Seq<char>> {
    match o {
        None => None,
        Some(t) => Some(t@),
    }
}

/// The contents of an optional selector.
pub open spec fn selector_view(o: Option<RouteSelector>) -> Option<SelectorModel> {
    match o {
        None => None,
        Some(s) => Some(s@),
    }
}

/// Error returned when planned metadata is not valid.
#[derive(Debug, Clone, PartialEq, Eq)]
pub enum SessionPlanError {
    /// Planned labels cannot give one key two different values.
    ConflictingLabel { key: String },
}

impl SessionPlanError {
    /// The human-readable message for this error.
    pub open spec fn text(self) -> Seq<char> {
        match self {
            SessionPlanError::ConflictingLabel { key } => "planned label `"@ + key@
                + "` has conflicting values"@,
        }
    }

    /// Render the human-readable message for this error.
    pub fn to_string(&self) -> (m: String)
        ensures
            m@ == self.text(),
    {
        match self {
            SessionPlanError::ConflictingLabel { key } => {
                let mut m = string_of("planned label `");
                push_str(&mut m, key.as_str());
                push_str(&mut m, "` has conflicting values");
                m
            },
        }
    }
}

/// Dry-run description of a Kply session.
///
/// A plan captures the [`SessionId`], [`SessionName`], target [`WorkloadRef`],
/// proposed [`ImageRef`], optional time-to-live, planned
/// [`KubernetesResourceRef`] resources, optional [`RouteSelector`],
/// [`SessionPolicy`], planned labels and annotations, and the planned
/// [`SessionStatus`] of a session that has not yet been executed.
#[derive(Debug, PartialEq, Eq, Hash)]
pub struct SessionPlan {
    id: SessionId,
    name: SessionName,
    workload: WorkloadRef,
    image: ImageRef,
    time_to_live: Option<TimeToLive>,
    planned_resources: Vec<KubernetesResourceRef>,
    route_selector: Option<RouteSelector>,
    policy: SessionPolicy,
    status: SessionStatus,
    planned_labels: Vec<MetadataEntry>,
    planned_annotations: Vec<MetadataEntry>,
}

impl View for SessionPlan {
    type V = SessionPlanModel;

    closed spec fn view(&self) -> SessionPlanModel {
        SessionPlanModel {
            id: self.id@,
            name: self.name@,
            workload: self.workload@,
            image: self.image@,
            time_to_live: ttl_view(self.time_to_live),
            planned_resources: views(self.planned_resources@),
            route_selector: selector_view(self.route_selector),
            policy: self.policy@,
            status: self.status,
            planned_labels: views(self.planned_labels@),
            planned_annotations: views(self.planned_annotations@),
        }
    }
}

/// Copy a list of resources entry by entry.
fn copy_resources(v: &Vec<KubernetesResourceRef>) -> (r: Vec<KubernetesResourceRef>)
    ensures
        views(r@) == views(v@),
        forall|i: int| 0 <= i < v@.len() ==> (#[trigger] r@[i]).key() == v@[i].key(),
        r@.len() == v@.len(),
{
    let mut out: Vec<KubernetesResourceRef> = Vec::new();
    let n = v.len();
    for i in 0..n
        invariant
            n == v@.len(),
            out@.len() == i,
            forall|q: int| 0 <= q < i ==> (#[trigger] out@[q])@ == v@[q]@,
    {
        out.push(v[i].clone());
    }
    assert(views(out@) =~= views(v@));
    out
}

/// Copy a list of metadata entries entry by entry.
fn copy_entries(v: &Vec<MetadataEntry>) -> (r: Vec<MetadataEntry>)
    ensures
        views(r@) == views(v@),
        forall|i: int| 0 <= i < v@.len() ==> (#[trigger] r@[i])@ == v@[i]@,
        r@.len() == v@.len(),
{
    let mut out: Vec<MetadataEntry> = Vec::new();
    let n = v.len();
    for i in 0..n
        invariant
            n == v@.len(),
            out@.len() == i,
            forall|q: int| 0 <= q < i ==> (#[trigger] out@[q])@ == v@[q]@,
    {
        out.push(v[i].clone());
    }
    assert(views(out@) =~= views(v@));
    out
}

impl SessionPlan {
    #[verifier::type_invariant]
    spec fn well_formed(self) -> bool {
        &&& strictly_sorted(self.planned_resources@)
        &&& keys_sorted(self.planned_labels@)
        &&& keys_sorted(self.planned_annotations@)
        &&& self.status == SessionStatus::Planned
    }

    /// The planned resources, in key order.
    pub closed spec fn resources(self) -> Seq<KubernetesResourceRef> {
        self.planned_resources@
    }

    /// The planned labels, in key order.
    pub closed spec fn labels(self) -> Seq<MetadataEntry> {
        self.planned_labels@
    }

    /// The planned annotations, in key order.
    pub closed spec fn annotations(self) -> Seq<MetadataEntry> {
        self.planned_annotations@
    }

    /// The lists of a plan are what its model shows.
    pub proof fn lemma_lists_match_model(self)
        ensures
            views(self.resources()) == self@.planned_resources,
            views(self.labels()) == self@.planned_labels,
            views(self.annotations()) == self@.planned_annotations,
    {
    }

    /// Create a [`SessionPlan`] for a future sandbox session, with no lifetime,
    /// resources, selector, or metadata yet, in the planned status.
    pub fn new(
        id: SessionId,
        name: SessionName,
        workload: WorkloadRef,
        image: ImageRef,
        policy: SessionPolicy,
    ) -> (r: Self)
        ensures
            r@ == (SessionPlanModel {
                id: id@,
                name: name@,
                workload: workload@,
                image: image@,
                time_to_live: None,
                planned_resources: Seq::empty(),
                route_selector: None,
                policy: policy@,
                status: SessionStatus::Planned,
                planned_labels: Seq::empty(),
                planned_annotations: Seq::empty(),
            }),
            r.resources().len() == 0,
            r.labels().len() == 0,
            r.annotations().len() == 0,
    {
        let r = SessionPlan {
            id,
            name,
            workload,
            image,
            time_to_live: None,
            planned_resources: Vec::new(),
            route_selector: None,
            policy,
            status: SessionStatus::Planned,
            planned_labels: Vec::new(),
            planned_annotations: Vec::new(),
        };
        assert(views(r.planned_resources@) =~= Seq::<WorkloadView>::empty());
        assert(views(r.planned_labels@) =~= Seq::<(Seq<char>, Seq<char>)>::empty());
        assert(views(r.planned_annotations@) =~= Seq::<(Seq<char>, Seq<char>)>::empty());
        r
    }

    /// Return a copy of this plan with a session lifetime.
    pub fn with_time_to_live(self, time_to_live: TimeToLive) -> (r: Self)
        ensures
            r@ == (SessionPlanModel { time_to_live: Some(time_to_live@), ..self@ }),
            r.resources() == self.resources(),
            r.labels() == self.labels(),
            r.annotations() == self.annotations(),
    {
        proof {
            use_type_invariant(&self);
        }
        SessionPlan {
            id: self.id,
            name: self.name,
            workload: self.workload,
            image: self.image,
            time_to_live: Some(time_to_live),
            planned_resources: self.planned_resources,
            route_selector: self.route_selector,
            policy: self.policy,
            status: self.status,
            planned_labels: self.planned_labels,
            planned_annotations: self.planned_annotations,
        }
    }

    /// Return a copy of this plan with planned [`KubernetesResourceRef`]
    /// resources, in key order without repeats.
    pub fn with_planned_resources(self, planned_resources: Vec<KubernetesResourceRef>) -> (r: Self)
        ensures
            sorted_unique_of(r.resources(), planned_resources@),
            r@ == (SessionPlanModel { planned_resources: views(r.resources()), ..self@ }),
            r.labels() == self.labels(),
            r.annotations() == self.annotations(),
    {
        proof {
            use_type_invariant(&self);
        }
        let planned_resources = sort_unique(planned_resources);
        SessionPlan {
            id: self.id,
            name: self.name,
            workload: self.workload,
            image: self.image,
            time_to_live: self.time_to_live,
            planned_resources,
            route_selector: self.route_selector,
            policy: self.policy,
            status: self.status,
            planned_labels: self.planned_labels,
            planned_annotations: self.planned_annotations,
        }
    }

    /// Return a copy of this plan with a test traffic [`RouteSelector`].
    pub fn with_route_selector(self, route_selector: RouteSelector) -> (r: Self)
        ensures
            r@ == (SessionPlanModel { route_selector: Some(route_selector@), ..self@ }),
            r.resources() == self.resources(),
            r.labels() == self.labels(),
            r.annotations() == self.annotations(),
    {
        proof {
            use_type_invariant(&self);
        }
        SessionPlan {
            id: self.id,
            name: self.name,
            workload: self.workload,
            image: self.image,
            time_to_live: self.time_to_live,
            planned_resources: self.planned_resources,
            route_selector: Some(route_selector),
            policy: self.policy,
            status: self.status,
            planned_labels: self.planned_labels,
            planned_annotations: self.planned_annotations,
        }
    }

    /// Return a copy of this plan with planned labels, one per key in key
    /// order; labels that give one key different values are refused.
    pub fn with_planned_labels(self, planned_labels: Vec<MetadataEntry>) -> (r: Result<
        Self,
        SessionPlanError,
    >)
        ensures
            match r {
                Ok(p) => conflict_free(planned_labels@) && last_per_key(p.labels(), planned_labels@)
                    && p@ == (SessionPlanModel { planned_labels: views(p.labels()), ..self@ })
                    && p.resources() == self.resources() && p.annotations() == self.annotations(),
                Err(SessionPlanError::ConflictingLabel { key }) => conflict_at(
                    planned_labels@,
                    key@,
                ),
            },
    {
        proof {
            use_type_invariant(&self);
        }
        match merge_entries(planned_labels, true) {
            Err(key) => Err(SessionPlanError::ConflictingLabel { key }),
            Ok(labels) => {
                proof {
                    reveal(last_per_key);
                }
                Ok(
                    SessionPlan {
                        id: self.id,
                        name: self.name,
                        workload: self.workload,
                        image: self.image,
                        time_to_live: self.time_to_live,
                        planned_resources: self.planned_resources,
                        route_selector: self.route_selector,
                        policy: self.policy,
                        status: self.status,
                        planned_labels: labels,
                        planned_annotations: self.planned_annotations,
                    },
                )
            },
        }
    }

    /// Return a copy of this plan with planned annotations, one per key in
    /// key order; of entries that share a key, the last one given is kept.
    pub fn with_planned_annotations(self, planned_annotations: Vec<MetadataEntry>) -> (r: Self)
        ensures
            last_per_key(r.annotations(), planned_annotations@),
            r@ == (SessionPlanModel { planned_annotations: views(r.annotations()), ..self@ }),
            r.resources() == self.resources(),
            r.labels() == self.labels(),
    {
        proof {
            use_type_invariant(&self);
        }
        let merged = merge_entries(planned_annotations, false);
        let annotations = match merged {
            Ok(a) => a,
            Err(_) => Vec::new(),
        };
        proof {
            reveal(last_per_key);
        }
        SessionPlan {
            id: self.id,
            name: self.name,
            workload: self.workload,
            image: self.image,
            time_to_live: self.time_to_live,
            planned_resources: self.planned_resources,
            route_selector: self.route_selector,
            policy: self.policy,
            status: self.status,
            planned_labels: self.planned_labels,
            planned_annotations: annotations,
        }
    }

    /// Borrow the [`SessionId`].
    pub fn id(&self) -> (r: &SessionId)
        ensures
            r@ == self@.id,
    {
        &self.id
    }

    /// Borrow the [`SessionName`].
    pub fn name(&self) -> (r: &SessionName)
        ensures
            r@ == self@.name,
    {
        &self.name
    }

    /// Borrow the target [`WorkloadRef`].
    pub fn workload(&self) -> (r: &WorkloadRef)
        ensures
            r@ == self@.workload,
    {
        &self.workload
    }

    /// Borrow the proposed sandbox [`ImageRef`].
    pub fn image(&self) -> (r: &ImageRef)
        ensures
            r@ == self@.image,
    {
        &self.image
    }

    /// Borrow the optional session lifetime.
    pub fn time_to_live(&self) -> (r: Option<&TimeToLive>)
        ensures
            match r {
                None => self@.time_to_live is None,
                Some(t) => self@.time_to_live == Some(t@),
            },
    {
        match &self.time_to_live {
            None => None,
            Some(t) => Some(t),
        }
    }

    /// Borrow planned [`KubernetesResourceRef`] resources in deterministic order.
    pub fn planned_resources(&self) -> (r: &[KubernetesResourceRef])
        ensures
            r@ == self.resources(),
            strictly_sorted(r@),
    {
        proof {
            use_type_invariant(self);
        }
        self.planned_resources.as_slice()
    }

    /// Borrow the optional [`RouteSelector`].
    pub fn route_selector(&self) -> (r: Option<&RouteSelector>)
        ensures
            match r {
                None => self@.route_selector is None,
                Some(s) => self@.route_selector == Some(s@),
            },
    {
        match &self.route_selector {
            None => None,
            Some(s) => Some(s),
        }
    }

    /// Borrow the [`SessionPolicy`].
    pub fn policy(&self) -> (r: &SessionPolicy)
        ensures
            r@ == self@.policy,
    {
        &self.policy
    }

    /// Return the planned [`SessionStatus`]; a plan is always in the planned status.
    pub fn status(&self) -> (r: SessionStatus)
        ensures
            r == self@.status,
            r == SessionStatus::Planned,
    {
        proof {
            use_type_invariant(self);
        }
        self.status
    }

    /// Borrow planned labels in key order.
    pub fn planned_labels(&self) -> (r: &[MetadataEntry])
        ensures
            r@ == self.labels(),
            keys_sorted(r@),
    {
        proof {
            use_type_invariant(self);
        }
        self.planned_labels.as_slice()
    }

    /// Borrow planned annotations in key order.
    pub fn planned_annotations(&self) -> (r: &[MetadataEntry])
        ensures
            r@ == self.annotations(),
            keys_sorted(r@),
    {
        proof {
            use_type_invariant(self);
        }
        self.planned_annotations.as_slice()
    }
}

impl Clone for SessionPlan {
    fn clone(&self) -> (r: Self)
        ensures
            r@ == self@,
    {
        proof {
            use_type_invariant(self);
        }
        let planned_resources = copy_resources(&self.planned_resources);
        let planned_labels = copy_entries(&self.planned_labels);
        let planned_annotations = copy_entries(&self.planned_annotations);
        let time_to_live = match &self.time_to_live {
            None => None,
            Some(t) => Some(t.clone()),
        };
        let route_selector = match &self.route_selector {
            None => None,
            Some(s) => Some(s.clone()),
        };
        SessionPlan {
            id: self.id.clone(),
            name: self.name.clone(),
            workload: self.workload.clone(),
            image: self.image.clone(),
            time_to_live,
            planned_resources,
            route_selector,
            policy: self.policy.clone(),
            status: self.status,
            planned_labels,
            planned_annotations,
        }
    }
}

/// Final report for an executed [`SessionPlan`].
///
/// A report preserves the original [`SessionPlan`] and records a reportable
/// [`SessionStatus`]: blocked, ready, cleaned up, or failed.
#[derive(Debug, PartialEq, Eq, Hash)]
pub struct SessionReport {
    plan: SessionPlan,
    status: SessionStatus,
}

impl View for SessionReport {
    type V = (SessionPlanModel, SessionStatus);

    closed spec fn view(&self) -> (SessionPlanModel, SessionStatus) {
        (self.plan@, self.status)
    }
}

impl SessionReport {
    #[verifier::type_invariant]
    spec fn well_formed(self) -> bool {
        reportable(self.status)
    }

    /// Create a [`SessionReport`] from a plan and a reportable status.
    pub fn new(plan: SessionPlan, status: SessionStatus) -> (r: Result<Self, SessionReportError>)
        ensures
            match r {
                Ok(report) => reportable(status) && report@ == (plan@, status),
                Err(e) => !reportable(status) && e == (SessionReportError::NonReportableStatus {
                    status,
                }),
            },
    {
        match status {
            SessionStatus::Blocked | SessionStatus::Ready | SessionStatus::CleanedUp
            | SessionStatus::Failed => Ok(SessionReport { plan, status }),
            _ => Err(SessionReportError::NonReportableStatus { status }),
        }
    }

    /// Borrow the original [`SessionPlan`].
    pub fn plan(&self) -> (r: &SessionPlan)
        ensures
            r@ == self@.0,
    {
        &self.plan
    }

    /// Return the final report [`SessionStatus`], always a reportable one.
    pub fn status(&self) -> (r: SessionStatus)
        ensures
            r == self@.1,
            reportable(r),
    {
        proof {
            use_type_invariant(self);
        }
        self.status
    }
}

impl Clone for SessionReport {
    fn clone(&self) -> (r: Self)
        ensures
            r@ == self@,
    {
        proof {
            use_type_invariant(self);
        }
        SessionReport { plan: self.plan.clone(), status: self.status }
    }
}

/// Error returned when a [`SessionReport`] is not valid.
#[derive(Debug, Clone, Copy, PartialEq, Eq, Structural)]
pub enum SessionReportError {
    /// Session reports must use a reportable terminal or blocked status.
    NonReportableStatus { status: SessionStatus },
}

impl SessionReportError {
    /// The human-readable message for this error.
    pub open spec fn text(self) -> Seq<char> {
        match self {
            SessionReportError::NonReportableStatus { status } => "session report status `"@
                + status.name() + "` is not reportable"@,
        }
    }

    /// Render the human-readable message for this error.
    pub fn to_string(&self) -> (m: String)
        ensures
            m@ == self.text(),
    {
        match self {
            SessionReportError::NonReportableStatus { status } => {
                let mut m = string_of("session report status `");
                push_str(&mut m, status.as_str());
                push_str(&mut m, "` is not reportable");
                m
            },
        }
    }
}

/// A stored session plan is accepted only in the planned state; otherwise
/// this says why it is refused.
pub fn stored_plan_status_issue(status: SessionStatus) -> (r: Option<String>)
    ensures
        r is None <==> status == SessionStatus::Planned,
        r matches Some(m) ==> m@ == "session plan status `"@ + status.name() + "` is not planned"@,
{
    if status == SessionStatus::Planned {
        None
    } else {
        let mut m = string_of("session plan status `");
        push_str(&mut m, status.as_str());
        push_str(&mut m, "` is not planned");
        Some(m)
    }
}

/// A stored session event is accepted only when its status is the one its
/// kind leads to; otherwise this says why it is refused.
pub fn stored_event_status_issue(kind: SessionEventKind, status: SessionStatus) -> (r: Option<String>)
    ensures
        r is None <==> status == kind.status_of(),
        r matches Some(m) ==> m@ == "session event status `"@ + status.name() + "` does not match kind `"@
            + kind.name() + "`"@,
{
    let expected = kind.status();
    if status == expected {
        None
    } else {
        let mut m = string_of("session event status `");
        push_str(&mut m, status.as_str());
        push_str(&mut m, "` does not match kind `");
        push_str(&mut m, kind.as_str());
        push_str(&mut m, "`");
        Some(m)
    }
}

} // verus!
