//! Session cleanup: which sandbox resources a session owns, in what order
//! they are deleted, and what is reported when a request fails.
//!
//! The Kubernetes requests themselves are made by the caller. This module
//! decides: it names the request to make next, and takes back what the
//! request returned.

use vstd::prelude::*;
use crate::k8s::{session_label_selector, session_selector_text, ResourceDeletionSummary};
use crate::order::{
    key_order, lemma_key_lt_irreflexive, lemma_key_lt_total, lemma_key_lt_transitive,
    lemma_str_key_injective, push_str_key, key_lt, str_key,
};
use crate::text::string_of;

verus! {

/// A resource as a list request returned it: the namespace the object
/// carries, if any, and its name.
#[derive(Debug, Clone, PartialEq, Eq)]
pub struct ListedResource {
    /// Namespace recorded on the listed object.
    pub namespace: Option<String>,
    /// Name of the listed object.
    pub name: String,
}

/// A deletion target as plain text: kind, namespace and name.
pub open spec fn deletion_view(r: ResourceDeletionSummary) -> (Seq<char>, Seq<char>, Seq<char>) {
    (r.kind@, r.namespace@, r.name@)
}

/// The deletion targets of a sequence, as plain text.
pub open spec fn deletion_views(s: Seq<ResourceDeletionSummary>) -> Seq<(Seq<char>, Seq<char>, Seq<char>)> {
    s.map_values(|r: ResourceDeletionSummary| deletion_view(r))
}

/// The deletion target a listed resource of `kind` stands for: its own
/// namespace when it carries one, else the namespace that was listed.
pub open spec fn listed_view(kind: Seq<char>, namespace: Seq<char>, l: ListedResource) -> (
    Seq<char>,
    Seq<char>,
    Seq<char>,
) {
    (
        kind,
        match l.namespace {
            Some(ns) => ns@,
            None => namespace,
        },
        l.name@,
    )
}

/// The deletion targets that listed resources of `kind` stand for, in list order.
pub open spec fn listed_views(kind: Seq<char>, namespace: Seq<char>, s: Seq<ListedResource>) -> Seq<
    (Seq<char>, Seq<char>, Seq<char>),
> {
    s.map_values(|l: ListedResource| listed_view(kind, namespace, l))
}

/// Name order: character by character, a proper prefix first.
pub open spec fn name_before(a: Seq<char>, b: Seq<char>) -> bool {
    key_lt(str_key(a), str_key(b))
}

/// No target's name comes before the name of a target ahead of it.
pub open spec fn sorted_by_name(s: Seq<(Seq<char>, Seq<char>, Seq<char>)>) -> bool {
    forall|i: int, j: int| 0 <= i < j < s.len() ==> !name_before(#[trigger] s[j].2, #[trigger] s[i].2)
}

/// The targets of `s` that have name `n`, in order.
pub open spec fn named(s: Seq<(Seq<char>, Seq<char>, Seq<char>)>, n: Seq<char>) -> Seq<
    (Seq<char>, Seq<char>, Seq<char>),
> {
    s.filter(|t: (Seq<char>, Seq<char>, Seq<char>)| t.2 == n)
}

/// `r` is `s` sorted by name, targets with the same name kept in the order
/// they have in `s`.
pub open spec fn sorted_by_name_of(
    r: Seq<(Seq<char>, Seq<char>, Seq<char>)>,
    s: Seq<(Seq<char>, Seq<char>, Seq<char>)>,
) -> bool {
    &&& sorted_by_name(r)
    &&& forall|n: Seq<char>| #[trigger] named(r, n) == named(s, n)
}

/// Appending a target adds it to the targets of its own name only.
proof fn lemma_named_push(s: Seq<(Seq<char>, Seq<char>, Seq<char>)>, x: (Seq<char>, Seq<char>, Seq<char>), n: Seq<char>)
    ensures
        named(s.push(x), n) == (if x.2 == n {
            named(s, n).push(x)
        } else {
            named(s, n)
        }),
{
    reveal(Seq::filter);
    assert(s.push(x).drop_last() =~= s);
}

/// A sequence without a target of name `n` has no targets of that name.
proof fn lemma_named_none(s: Seq<(Seq<char>, Seq<char>, Seq<char>)>, n: Seq<char>)
    requires
        forall|i: int| 0 <= i < s.len() ==> (#[trigger] s[i]).2 != n,
    ensures
        named(s, n) == Seq::<(Seq<char>, Seq<char>, Seq<char>)>::empty(),
    decreases s.len(),
{
    reveal(Seq::filter);
    if s.len() > 0 {
        lemma_named_none(s.drop_last(), n);
    }
}

/// Inserting `x` where every target before it has a name not after its own,
/// and every target from there on a name after it, keeps the sequence sorted
/// and adds `x` behind the targets of its name.
proof fn lemma_insert_by_name(s: Seq<(Seq<char>, Seq<char>, Seq<char>)>, x: (Seq<char>, Seq<char>, Seq<char>), p: int)
    requires
        sorted_by_name(s),
        0 <= p <= s.len(),
        forall|i: int| 0 <= i < p ==> !name_before(x.2, (#[trigger] s[i]).2),
        p < s.len() ==> name_before(x.2, s[p].2),
    ensures
        sorted_by_name(s.insert(p, x)),
        forall|n: Seq<char>| #[trigger] named(s.insert(p, x), n) == named(s.push(x), n),
{
    let t = s.insert(p, x);
    s.insert_ensures(p, x);
    assert forall|j: int| p <= j < s.len() implies !name_before((#[trigger] s[j]).2, x.2) && s[j].2 != x.2 by {
        if name_before(s[j].2, x.2) {
            lemma_key_lt_transitive(str_key(s[j].2), str_key(x.2), str_key(s[p].2));
            if j == p {
                lemma_key_lt_irreflexive(str_key(s[p].2));
            }
        }
        if s[j].2 == x.2 {
            if j == p {
                lemma_key_lt_irreflexive(str_key(x.2));
            } else {
                assert(!name_before(s[j].2, s[p].2));
            }
        }
    }
    assert forall|i: int, j: int| 0 <= i < j < t.len() implies !name_before(#[trigger] t[j].2, #[trigger] t[i].2) by {
        if j < p {
            assert(t[i] == s[i] && t[j] == s[j]);
        } else if j == p {
            assert(t[i] == s[i]);
        } else if i == p {
            assert(t[j] == s[j - 1]);
        } else if i < p {
            assert(t[i] == s[i] && t[j] == s[j - 1]);
        } else {
            assert(t[i] == s[i - 1] && t[j] == s[j - 1]);
        }
    }
    let a = s.take(p);
    let b = s.skip(p);
    assert(t =~= a + seq![x] + b);
    assert(s =~= a + b);
    assert(s.push(x) =~= a + b + seq![x]);
    let pred = |q: (Seq<char>, Seq<char>, Seq<char>)| q.2 == x.2;
    assert forall|n: Seq<char>| #[trigger] named(t, n) == named(s.push(x), n) by {
        let f = |q: (Seq<char>, Seq<char>, Seq<char>)| q.2 == n;
        Seq::filter_distributes_over_add(a + seq![x], b, f);
        Seq::filter_distributes_over_add(a, seq![x], f);
        Seq::filter_distributes_over_add(a, b, f);
        Seq::filter_distributes_over_add(a + b, seq![x], f);
        Seq::filter_distributes_over_add(a, b + seq![x], f);
        assert(a + b + seq![x] =~= a + (b + seq![x]));
        Seq::filter_distributes_over_add(b, seq![x], f);
        if x.2 == n {
            assert forall|i: int| 0 <= i < b.len() implies (#[trigger] b[i]).2 != n by {
                assert(b[i] == s[p + i]);
            }
            lemma_named_none(b, n);
            assert(named(b, n) =~= Seq::empty());
            assert(named(a + b, n) =~= named(a, n) + named(b, n));
            assert(named(a + b, n) =~= named(a, n));
            assert(named(t, n) =~= named(a, n) + named(seq![x], n));
            assert(named(s.push(x), n) =~= named(a, n) + named(seq![x], n));
        } else {
            assert(named(t, n) =~= named(a, n) + named(seq![x], n) + named(b, n));
            assert(named(s.push(x), n) =~= named(a, n) + named(b, n) + named(seq![x], n));
            lemma_named_push(Seq::empty(), x, n);
            assert(seq![x] =~= Seq::<(Seq<char>, Seq<char>, Seq<char>)>::empty().push(x));
            reveal(Seq::filter);
            assert(named(seq![x], n) =~= Seq::empty());
        }
    }
}

/// A target of a given name, when some target has it.
proof fn lemma_named_nonempty(s: Seq<(Seq<char>, Seq<char>, Seq<char>)>, n: Seq<char>)
    requires
        named(s, n).len() > 0,
    ensures
        exists|i: int| 0 <= i < s.len() && (#[trigger] s[i]).2 == n,
    decreases s.len(),
{
    reveal(Seq::filter);
    if s.len() > 0 {
        if s.last().2 == n {
            assert(s[s.len() - 1].2 == n);
        } else {
            lemma_named_nonempty(s.drop_last(), n);
            let i = choose|i: int| 0 <= i < s.drop_last().len() && (#[trigger] s.drop_last()[i]).2 == n;
            assert(s[i] == s.drop_last()[i]);
        }
    }
}

/// Two sequences sorted by name that hold the same targets of each name, in
/// the same order, are equal.
proof fn lemma_sorted_names_determine(r1: Seq<(Seq<char>, Seq<char>, Seq<char>)>, r2: Seq<(Seq<char>, Seq<char>, Seq<char>)>)
    requires
        sorted_by_name(r1),
        sorted_by_name(r2),
        forall|n: Seq<char>| #[trigger] named(r1, n) == named(r2, n),
    ensures
        r1 == r2,
    decreases r1.len() + r2.len(),
{
    if r1.len() == 0 && r2.len() == 0 {
        assert(r1 =~= r2);
    } else if r1.len() == 0 || r2.len() == 0 {
        let (a, b) = if r1.len() == 0 {
            (r2, r1)
        } else {
            (r1, r2)
        };
        let x = a.last();
        assert(a.drop_last().push(x) =~= a);
        lemma_named_push(a.drop_last(), x, x.2);
        reveal(Seq::filter);
        assert(named(b, x.2).len() == 0);
        assert(named(a, x.2).len() > 0);
        assert(named(r1, x.2) == named(r2, x.2));
    } else {
        let x1 = r1.last();
        let x2 = r2.last();
        let p1 = r1.drop_last();
        let p2 = r2.drop_last();
        assert(p1.push(x1) =~= r1);
        assert(p2.push(x2) =~= r2);
        lemma_named_push(p1, x1, x1.2);
        lemma_named_push(p2, x2, x2.2);
        lemma_key_lt_total(str_key(x1.2), str_key(x2.2));
        lemma_str_key_injective(x1.2, x2.2);
        if name_before(x1.2, x2.2) {
            assert(named(r1, x2.2) == named(r2, x2.2));
            lemma_named_nonempty(r1, x2.2);
            let i = choose|i: int| 0 <= i < r1.len() && (#[trigger] r1[i]).2 == x2.2;
            if i < r1.len() - 1 {
                assert(!name_before(r1[r1.len() - 1].2, r1[i].2));
            } else {
                lemma_key_lt_irreflexive(str_key(x1.2));
            }
        }
        if name_before(x2.2, x1.2) {
            assert(named(r1, x1.2) == named(r2, x1.2));
            lemma_named_nonempty(r2, x1.2);
            let i = choose|i: int| 0 <= i < r2.len() && (#[trigger] r2[i]).2 == x1.2;
            if i < r2.len() - 1 {
                assert(!name_before(r2[r2.len() - 1].2, r2[i].2));
            } else {
                lemma_key_lt_irreflexive(str_key(x2.2));
            }
        }
        let n = x1.2;
        assert(n == x2.2);
        assert(named(r1, n) == named(r2, n));
        assert(x1 == named(r1, n).last());
        assert(x2 == named(r2, n).last());
        assert forall|q: Seq<char>| #[trigger] named(p1, q) == named(p2, q) by {
            lemma_named_push(p1, x1, q);
            lemma_named_push(p2, x2, q);
            assert(named(r1, q) == named(r2, q));
            if q == n {
                assert(named(p1, q) =~= named(r1, q).drop_last());
                assert(named(p2, q) =~= named(r2, q).drop_last());
            }
        }
        assert forall|i: int, j: int| 0 <= i < j < p1.len() implies !name_before(#[trigger] p1[j].2, #[trigger] p1[i].2) by {
            assert(p1[i] == r1[i] && p1[j] == r1[j]);
        }
        assert forall|i: int, j: int| 0 <= i < j < p2.len() implies !name_before(#[trigger] p2[j].2, #[trigger] p2[i].2) by {
            assert(p2[i] == r2[i] && p2[j] == r2[j]);
        }
        lemma_sorted_names_determine(p1, p2);
    }
}

/// Sorting by name is deterministic: whatever sorts targets stably by name
/// gives one and the same result.
pub proof fn lemma_sorted_by_name_unique(
    r1: Seq<(Seq<char>, Seq<char>, Seq<char>)>,
    r2: Seq<(Seq<char>, Seq<char>, Seq<char>)>,
    s: Seq<(Seq<char>, Seq<char>, Seq<char>)>,
)
    requires
        sorted_by_name_of(r1, s),
        sorted_by_name_of(r2, s),
    ensures
        r1 == r2,
{
    assert forall|n: Seq<char>| #[trigger] named(r1, n) == named(r2, n) by {
        assert(named(r1, n) == named(s, n));
        assert(named(r2, n) == named(s, n));
    }
    lemma_sorted_names_determine(r1, r2);
}

/// Whether `a` comes before `b` in name order.
pub fn name_precedes(a: &str, b: &str) -> (r: bool)
    ensures
        r == name_before(a@, b@),
{
    let mut ka: Vec<u32> = Vec::new();
    push_str_key(&mut ka, a);
    let mut kb: Vec<u32> = Vec::new();
    push_str_key(&mut kb, b);
    assert(ka@ =~= str_key(a@));
    assert(kb@ =~= str_key(b@));
    key_order(ka.as_slice(), kb.as_slice()) < 0
}

/// Insert `x` behind every target whose name is not after its own.
fn insert_by_name(v: &mut Vec<ResourceDeletionSummary>, x: ResourceDeletionSummary)
    requires
        sorted_by_name(deletion_views(old(v)@)),
    ensures
        final(v)@.len() == old(v)@.len() + 1,
        sorted_by_name(deletion_views(final(v)@)),
        forall|n: Seq<char>| #[trigger] named(deletion_views(final(v)@), n) == named(
            deletion_views(old(v)@).push(deletion_view(x)),
            n,
        ),
{
    let ghost s = deletion_views(v@);
    let n = v.len();
    let mut p: usize = 0;
    while p < n && !name_precedes(x.name.as_str(), v[p].name.as_str())
        invariant
            n == v@.len(),
            s == deletion_views(v@),
            p <= n,
            forall|i: int| 0 <= i < p ==> !name_before(x.name@, (#[trigger] s[i]).2),
        decreases n - p,
    {
        p = p + 1;
    }
    proof {
        lemma_insert_by_name(s, deletion_view(x), p as int);
    }
    let ghost before = v@;
    v.insert(p, x);
    assert(deletion_views(v@) =~= s.insert(p as int, deletion_view(x)));
}

/// The deletion targets for listed resources of one kind, sorted by name;
/// targets with the same name keep their list order.
pub fn deletion_targets(kind: &str, namespace: &str, listed: &[ListedResource]) -> (r: Vec<
    ResourceDeletionSummary,
>)
    ensures
        r@.len() == listed@.len(),
        sorted_by_name_of(deletion_views(r@), listed_views(kind@, namespace@, listed@)),
{
    let mut r: Vec<ResourceDeletionSummary> = Vec::new();
    let ghost all = listed_views(kind@, namespace@, listed@);
    let m = listed.len();
    for i in 0..m
        invariant
            m == listed@.len(),
            all == listed_views(kind@, namespace@, listed@),
            r@.len() == i,
            sorted_by_name(deletion_views(r@)),
            forall|n: Seq<char>| #[trigger] named(deletion_views(r@), n) == named(all.take(i as int), n),
    {
        let l = &listed[i];
        let ns = match &l.namespace {
            Some(ns) => ns.clone(),
            None => string_of(namespace),
        };
        let x = ResourceDeletionSummary { kind: string_of(kind), namespace: ns, name: l.name.clone() };
        assert(deletion_view(x) == all[i as int]);
        let ghost prev = deletion_views(r@);
        insert_by_name(&mut r, x);
        proof {
            assert(all.take(i + 1) =~= all.take(i as int).push(all[i as int]));
            assert forall|n: Seq<char>| #[trigger] named(deletion_views(r@), n) == named(all.take(i + 1), n) by {
                lemma_named_push(prev, deletion_view(x), n);
                lemma_named_push(all.take(i as int), deletion_view(x), n);
            }
        }
    }
    assert(all.take(m as int) =~= all);
    r
}

/// `v` lists, in deletion order, what cleanup would delete for the listed
/// Services and Deployments: the Services sorted by name, then the
/// Deployments sorted by name.
pub open spec fn cleanup_listing(
    v: Seq<(Seq<char>, Seq<char>, Seq<char>)>,
    namespace: Seq<char>,
    services: Seq<ListedResource>,
    deployments: Seq<ListedResource>,
) -> bool {
    &&& v.len() == services.len() + deployments.len()
    &&& sorted_by_name_of(v.take(services.len() as int), listed_views("Service"@, namespace, services))
    &&& sorted_by_name_of(v.skip(services.len() as int), listed_views("Deployment"@, namespace, deployments))
}

/// The resources that cleanup of a session would delete, in the order it
/// deletes them, as [`cleanup_listing`] states.
pub fn session_cleanup_resources(
    namespace: &str,
    services: &[ListedResource],
    deployments: &[ListedResource],
) -> (r: Vec<ResourceDeletionSummary>)
    ensures
        cleanup_listing(deletion_views(r@), namespace@, services@, deployments@),
{
    let mut r = deletion_targets("Service", namespace, services);
    let mut d = deletion_targets("Deployment", namespace, deployments);
    let ghost rv = deletion_views(r@);
    let ghost dv = deletion_views(d@);
    r.append(&mut d);
    assert(deletion_views(r@) =~= rv + dv);
    assert((rv + dv).take(rv.len() as int) =~= rv);
    assert((rv + dv).skip(rv.len() as int) =~= dv);
    r
}

/// Where a session cleanup stands.
#[derive(Debug, Clone, Copy, PartialEq, Eq, Structural)]
pub enum CleanupStage {
    /// The session's Services are to be listed.
    ListingServices,
    /// The session's Deployments are to be listed.
    ListingDeployments,
    /// Targets are deleted one after another.
    Deleting,
    /// Cleanup has ended; `failed` when a request failed.
    Finished { failed: bool },
}

/// What the caller reports after making the request cleanup asked for.
#[derive(Debug, Clone, PartialEq, Eq)]
pub enum CleanupEvent {
    /// The list request succeeded and returned these resources.
    Listed(Vec<ListedResource>),
    /// The list request failed.
    ListFailed,
    /// The delete request was accepted.
    DeleteAccepted,
    /// The delete request failed; `status` is the HTTP status the API server
    /// answered with, when it answered.
    DeleteRejected { status: Option<u16> },
}

/// What a cleanup event says, as plain values.
pub enum CleanupReply {
    /// Resources listed, in list order.
    Listed(Seq<ListedResource>),
    /// A list request failed.
    ListFailed,
    /// A delete request was accepted.
    DeleteAccepted,
    /// A delete request failed with this status, if any.
    DeleteRejected(Option<u16>),
}

impl View for CleanupEvent {
    type V = CleanupReply;

    open spec fn view(&self) -> CleanupReply {
        match self {
            CleanupEvent::Listed(l) => CleanupReply::Listed(l@),
            CleanupEvent::ListFailed => CleanupReply::ListFailed,
            CleanupEvent::DeleteAccepted => CleanupReply::DeleteAccepted,
            CleanupEvent::DeleteRejected { status } => CleanupReply::DeleteRejected(*status),
        }
    }
}

/// Resources that a failed cleanup had or had not dealt with.
#[derive(Debug, Clone, PartialEq, Eq)]
pub struct CleanupFailure {
    /// Resources whose delete requests were accepted before the failure.
    pub deletion_accepted_resources: Vec<ResourceDeletionSummary>,
    /// Resources not yet deleted because the failure stopped cleanup.
    pub pending_resources: Vec<ResourceDeletionSummary>,
}

/// What cleanup asks of the caller next.
#[derive(Debug, PartialEq, Eq)]
pub enum CleanupAction {
    /// List the Services in the cleanup namespace that match `selector`.
    ListServices { selector: String },
    /// List the Deployments in the cleanup namespace that match `selector`.
    ListDeployments { selector: String },
    /// Delete `target` from the cleanup namespace, in the background.
    Delete { target: ResourceDeletionSummary },
    /// Cleanup has ended with this result.
    Finish(Result<Vec<ResourceDeletionSummary>, CleanupFailure>),
}

/// A cleanup request as plain values.
pub enum CleanupRequest {
    /// List Services by label selector.
    ListServices(Seq<char>),
    /// List Deployments by label selector.
    ListDeployments(Seq<char>),
    /// Delete one target.
    Delete((Seq<char>, Seq<char>, Seq<char>)),
    /// Cleanup succeeded, having deleted these targets.
    Done(Seq<(Seq<char>, Seq<char>, Seq<char>)>),
    /// Cleanup failed: the targets accepted for deletion, and those pending.
    Stopped(Seq<(Seq<char>, Seq<char>, Seq<char>)>, Seq<(Seq<char>, Seq<char>, Seq<char>)>),
}

impl View for CleanupAction {
    type V = CleanupRequest;

    open spec fn view(&self) -> CleanupRequest {
        match self {
            CleanupAction::ListServices { selector } => CleanupRequest::ListServices(selector@),
            CleanupAction::ListDeployments { selector } => CleanupRequest::ListDeployments(selector@),
            CleanupAction::Delete { target } => CleanupRequest::Delete(deletion_view(*target)),
            CleanupAction::Finish(Ok(done)) => CleanupRequest::Done(deletion_views(done@)),
            CleanupAction::Finish(Err(f)) => CleanupRequest::Stopped(
                deletion_views(f.deletion_accepted_resources@),
                deletion_views(f.pending_resources@),
            ),
        }
    }
}

/// A session cleanup as plain values: its stage, namespace and label
/// selector, the Services it listed, the targets it deletes in order, and how
/// many of them have been dealt with.
pub struct CleanupModel {
    pub stage: CleanupStage,
    pub namespace: Seq<char>,
    pub selector: Seq<char>,
    pub services: Seq<(Seq<char>, Seq<char>, Seq<char>)>,
    pub targets: Seq<(Seq<char>, Seq<char>, Seq<char>)>,
    pub next: nat,
}

/// A cleanup model that can arise: the targets dealt with are a prefix, one
/// is left while deleting, and a successful end has dealt with all of them.
pub open spec fn model_wf(m: CleanupModel) -> bool {
    &&& m.next <= m.targets.len()
    &&& m.stage == CleanupStage::Deleting ==> m.next < m.targets.len()
    &&& m.stage == (CleanupStage::Finished { failed: false }) ==> m.next == m.targets.len()
}

/// The request that a cleanup in state `m` makes: the list requests by the
/// session's selector, the next target's deletion, or the final result. A
/// failure reports the targets dealt with as accepted and the rest as pending.
pub open spec fn request_of(m: CleanupModel) -> CleanupRequest {
    match m.stage {
        CleanupStage::ListingServices => CleanupRequest::ListServices(m.selector),
        CleanupStage::ListingDeployments => CleanupRequest::ListDeployments(m.selector),
        CleanupStage::Deleting => CleanupRequest::Delete(m.targets[m.next as int]),
        CleanupStage::Finished { failed } => if failed {
            CleanupRequest::Stopped(m.targets.take(m.next as int), m.targets.skip(m.next as int))
        } else {
            CleanupRequest::Done(m.targets.take(m.next as int))
        },
    }
}

/// Whether a reply answers the request of the stage.
pub open spec fn answers(stage: CleanupStage, e: CleanupReply) -> bool {
    match stage {
        CleanupStage::ListingServices | CleanupStage::ListingDeployments => e is Listed || e is ListFailed,
        CleanupStage::Deleting => e is DeleteAccepted || e is DeleteRejected,
        CleanupStage::Finished { .. } => false,
    }
}

/// Whether a delete reply means the target is gone: the request was
/// accepted, or the API server answered that the object was not found.
pub open spec fn target_gone(e: CleanupReply) -> bool {
    e is DeleteAccepted || e == CleanupReply::DeleteRejected(Some(404u16))
}

/// One step of cleanup from `m` on reply `e` gives `m2`:
/// - listed Services become the Services, sorted by name, and Deployments are
///   listed next; if that list fails, cleanup fails with nothing pending;
/// - listed Deployments, sorted by name, follow the Services as targets, and
///   deletion starts (or cleanup succeeds at once when there is no target);
///   if that list fails, cleanup fails with every Service pending;
/// - a target that is gone counts as dealt with, and the next one is deleted
///   or cleanup succeeds; any other delete failure ends cleanup as failed.
pub open spec fn advanced(m: CleanupModel, e: CleanupReply, m2: CleanupModel) -> bool {
    &&& m2.namespace == m.namespace
    &&& m2.selector == m.selector
    &&& match (m.stage, e) {
        (CleanupStage::ListingServices, CleanupReply::Listed(l)) => {
            &&& m2.stage == CleanupStage::ListingDeployments
            &&& sorted_by_name_of(m2.services, listed_views("Service"@, m.namespace, l))
            &&& m2.targets.len() == 0
            &&& m2.next == 0
        },
        (CleanupStage::ListingServices, _) => {
            &&& m2.stage == (CleanupStage::Finished { failed: true })
            &&& m2.services == m.services
            &&& m2.targets.len() == 0
            &&& m2.next == 0
        },
        (CleanupStage::ListingDeployments, CleanupReply::Listed(l)) => {
            &&& m2.services == m.services
            &&& m2.targets.len() >= m.services.len()
            &&& m2.targets.take(m.services.len() as int) == m.services
            &&& sorted_by_name_of(
                m2.targets.skip(m.services.len() as int),
                listed_views("Deployment"@, m.namespace, l),
            )
            &&& m2.next == 0
            &&& m2.stage == if m2.targets.len() == 0 {
                CleanupStage::Finished { failed: false }
            } else {
                CleanupStage::Deleting
            }
        },
        (CleanupStage::ListingDeployments, _) => {
            &&& m2.stage == (CleanupStage::Finished { failed: true })
            &&& m2.services == m.services
            &&& m2.targets == m.services
            &&& m2.next == 0
        },
        (_, _) => {
            &&& m2.services == m.services
            &&& m2.targets == m.targets
            &&& if target_gone(e) {
                &&& m2.next == m.next + 1
                &&& m2.stage == if m2.next == m.targets.len() {
                    CleanupStage::Finished { failed: false }
                } else {
                    CleanupStage::Deleting
                }
            } else {
                &&& m2.next == m.next
                &&& m2.stage == (CleanupStage::Finished { failed: true })
            }
        },
    }
}

/// A finished cleanup accounts for every target, in deletion order: a
/// success reports all of them deleted; a failure reports each of them either
/// as accepted for deletion or as pending.
pub proof fn lemma_finished_cleanup_accounts_for_every_target(m: CleanupModel)
    requires
        model_wf(m),
        m.stage is Finished,
    ensures
        match request_of(m) {
            CleanupRequest::Done(done) => done == m.targets,
            CleanupRequest::Stopped(accepted, pending) => accepted + pending == m.targets,
            _ => false,
        },
{
    assert(m.targets.take(m.targets.len() as int) =~= m.targets);
    assert(m.targets.take(m.next as int) + m.targets.skip(m.next as int) =~= m.targets);
}

/// While deleting, each reply either deals with exactly the pending target
/// or ends the cleanup; the targets themselves never change.
pub proof fn lemma_deleting_deals_with_one_target(m: CleanupModel, e: CleanupReply, m2: CleanupModel)
    requires
        model_wf(m),
        m.stage == CleanupStage::Deleting,
        answers(m.stage, e),
        advanced(m, e, m2),
    ensures
        m2.targets == m.targets,
        m2.next == m.next + 1 || (m2.next == m.next && m2.stage == (CleanupStage::Finished { failed: true })),
        target_gone(e) ==> m2.targets.take(m2.next as int) == m.targets.take(m.next as int).push(
            m.targets[m.next as int],
        ),
{
    if target_gone(e) {
        assert(m2.targets.take(m2.next as int) =~= m.targets.take(m.next as int).push(m.targets[m.next as int]));
    }
}

/// The cleanup of one session's sandbox resources in one namespace.
pub struct SessionCleanup {
    namespace: String,
    selector: String,
    services: Vec<ResourceDeletionSummary>,
    targets: Vec<ResourceDeletionSummary>,
    deleted: Vec<ResourceDeletionSummary>,
    next: usize,
    stage: CleanupStage,
}

impl View for SessionCleanup {
    type V = CleanupModel;

    closed spec fn view(&self) -> CleanupModel {
        CleanupModel {
            stage: self.stage,
            namespace: self.namespace@,
            selector: self.selector@,
            services: deletion_views(self.services@),
            targets: deletion_views(self.targets@),
            next: self.next as nat,
        }
    }
}

/// Copy a deletion target.
fn copy_target(r: &ResourceDeletionSummary) -> (c: ResourceDeletionSummary)
    ensures
        deletion_view(c) == deletion_view(*r),
{
    ResourceDeletionSummary { kind: r.kind.clone(), namespace: r.namespace.clone(), name: r.name.clone() }
}

/// Copy the targets `v[lo..hi]`.
fn copy_targets(v: &Vec<ResourceDeletionSummary>, lo: usize, hi: usize) -> (c: Vec<ResourceDeletionSummary>)
    requires
        lo <= hi <= v@.len(),
    ensures
        deletion_views(c@) == deletion_views(v@).subrange(lo as int, hi as int),
{
    let mut c: Vec<ResourceDeletionSummary> = Vec::new();
    for i in lo..hi
        invariant
            lo <= hi <= v@.len(),
            deletion_views(c@) == deletion_views(v@).subrange(lo as int, i as int),
    {
        let t = copy_target(&v[i]);
        let ghost before = c@;
        c.push(t);
        assert(deletion_views(v@)[i as int] == deletion_view(v@[i as int]));
        assert(deletion_views(c@) =~= deletion_views(before).push(deletion_view(t)));
        assert(deletion_views(c@) =~= deletion_views(v@).subrange(lo as int, i + 1));
    }
    c
}

/// No targets have no views, and none of them have been dealt with.
proof fn lemma_no_targets()
    ensures
        deletion_views(Seq::<ResourceDeletionSummary>::empty()) == Seq::<(Seq<char>, Seq<char>, Seq<char>)>::empty(),
        deletion_views(Seq::<ResourceDeletionSummary>::empty()) == deletion_views(
            Seq::<ResourceDeletionSummary>::empty(),
        ).take(0),
{
    assert(deletion_views(Seq::<ResourceDeletionSummary>::empty()) =~= Seq::empty());
}

impl SessionCleanup {
    #[verifier::type_invariant]
    spec fn cleanup_wf(self) -> bool {
        &&& model_wf(self@)
        &&& deletion_views(self.deleted@) == deletion_views(self.targets@).take(self.next as int)
    }

    /// The request that this cleanup makes now.
    fn request(&self) -> (a: CleanupAction)
        ensures
            a@ == request_of(self@),
    {
        proof {
            use_type_invariant(self);
        }
        match self.stage {
            CleanupStage::ListingServices => CleanupAction::ListServices { selector: self.selector.clone() },
            CleanupStage::ListingDeployments => CleanupAction::ListDeployments {
                selector: self.selector.clone(),
            },
            CleanupStage::Deleting => CleanupAction::Delete { target: copy_target(&self.targets[self.next]) },
            CleanupStage::Finished { failed } => {
                let done = copy_targets(&self.deleted, 0, self.deleted.len());
                assert(deletion_views(self.deleted@).subrange(0, self.deleted@.len() as int)
                    =~= deletion_views(self.deleted@));
                if failed {
                    let pending = copy_targets(&self.targets, self.next, self.targets.len());
                    assert(deletion_views(self.targets@).subrange(self.next as int, self.targets@.len() as int)
                        =~= deletion_views(self.targets@).skip(self.next as int));
                    CleanupAction::Finish(
                        Err(CleanupFailure { deletion_accepted_resources: done, pending_resources: pending }),
                    )
                } else {
                    CleanupAction::Finish(Ok(done))
                }
            },
        }
    }

    /// Begin cleaning up session `session_id` in `namespace`: its Services
    /// are listed first, by the session's label selector.
    pub fn start(namespace: &str, session_id: &str) -> (r: (SessionCleanup, CleanupAction))
        ensures
            r.0@ == (CleanupModel {
                stage: CleanupStage::ListingServices,
                namespace: namespace@,
                selector: session_selector_text(session_id@),
                services: Seq::empty(),
                targets: Seq::empty(),
                next: 0,
            }),
            r.1@ == request_of(r.0@),
    {
        proof {
            lemma_no_targets();
        }
        let c = SessionCleanup {
            namespace: string_of(namespace),
            selector: session_label_selector(session_id),
            services: Vec::new(),
            targets: Vec::new(),
            deleted: Vec::new(),
            next: 0,
            stage: CleanupStage::ListingServices,
        };
        assert(deletion_views(c.services@) =~= Seq::empty());
        assert(deletion_views(c.targets@) =~= Seq::empty());
        assert(deletion_views(c.deleted@) =~= deletion_views(c.targets@).take(0));
        let a = c.request();
        (c, a)
    }

    /// Take the reply to the pending request and move on, as [`advanced`]
    /// describes; the result holds the request to make next.
    pub fn step(self, event: CleanupEvent) -> (r: (SessionCleanup, CleanupAction))
        requires
            answers(self@.stage, event@),
        ensures
            advanced(self@, event@, r.0@),
            model_wf(r.0@),
            r.1@ == request_of(r.0@),
    {
        proof {
            use_type_invariant(&self);
            lemma_no_targets();
        }
        let ghost m = self@;
        let SessionCleanup { namespace, selector, services, targets, deleted, next, stage } = self;
        let c = match stage {
            CleanupStage::ListingServices => match event {
                CleanupEvent::Listed(l) => {
                    let found = deletion_targets("Service", namespace.as_str(), l.as_slice());
                    let c = SessionCleanup {
                        namespace,
                        selector,
                        services: found,
                        targets: Vec::new(),
                        deleted: Vec::new(),
                        next: 0,
                        stage: CleanupStage::ListingDeployments,
                    };
                    assert(deletion_views(c.deleted@) =~= deletion_views(c.targets@).take(0));
                    c
                },
                _ => {
                    let c = SessionCleanup {
                        namespace,
                        selector,
                        services,
                        targets: Vec::new(),
                        deleted: Vec::new(),
                        next: 0,
                        stage: CleanupStage::Finished { failed: true },
                    };
                    assert(deletion_views(c.deleted@) =~= deletion_views(c.targets@).take(0));
                    c
                },
            },
            CleanupStage::ListingDeployments => {
                let mut all = copy_targets(&services, 0, services.len());
                assert(deletion_views(services@).subrange(0, services@.len() as int) =~= deletion_views(
                    services@,
                ));
                match event {
                    CleanupEvent::Listed(l) => {
                        let mut found = deletion_targets("Deployment", namespace.as_str(), l.as_slice());
                        let ghost fv = deletion_views(found@);
                        all.append(&mut found);
                        assert(deletion_views(all@).take(0) =~= Seq::empty());
                        let stage = if all.len() == 0 {
                            CleanupStage::Finished { failed: false }
                        } else {
                            CleanupStage::Deleting
                        };
                        let c = SessionCleanup {
                            namespace,
                            selector,
                            services,
                            targets: all,
                            deleted: Vec::new(),
                            next: 0,
                            stage,
                        };
                        proof {
                            let tv = deletion_views(c.targets@);
                            assert(tv =~= m.services + fv);
                            assert(tv.take(m.services.len() as int) =~= m.services);
                            assert(tv.skip(m.services.len() as int) =~= fv);
                            assert(deletion_views(c.deleted@) =~= tv.take(0));
                        }
                        c
                    },
                    _ => {
                        assert(deletion_views(all@).take(0) =~= Seq::empty());
                        let c = SessionCleanup {
                            namespace,
                            selector,
                            services,
                            targets: all,
                            deleted: Vec::new(),
                            next: 0,
                            stage: CleanupStage::Finished { failed: true },
                        };
                        assert(deletion_views(c.deleted@) =~= deletion_views(c.targets@).take(0));
                        c
                    },
                }
            },
            _ => {
                assert(stage == CleanupStage::Deleting);
                assert(m.targets.len() == targets@.len());
                assert(m.next == next as nat);
                assert(next < targets.len());
                let gone = match event {
                    CleanupEvent::DeleteRejected { status } => match status {
                        Some(code) => code == 404,
                        None => false,
                    },
                    _ => true,
                };
                if gone {
                    let mut deleted = deleted;
                    let t = copy_target(&targets[next]);
                    deleted.push(t);
                    let next = next + 1;
                    let stage = if next == targets.len() {
                        CleanupStage::Finished { failed: false }
                    } else {
                        CleanupStage::Deleting
                    };
                    proof {
                        let tv = deletion_views(targets@);
                        assert(tv.take(next as int) =~= tv.take(next - 1).push(tv[next - 1]));
                        assert(deletion_views(deleted@) =~= tv.take(next as int));
                    }
                    SessionCleanup { namespace, selector, services, targets, deleted, next, stage }
                } else {
                    SessionCleanup {
                        namespace,
                        selector,
                        services,
                        targets,
                        deleted,
                        next,
                        stage: CleanupStage::Finished { failed: true },
                    }
                }
            },
        };
        proof {
            use_type_invariant(&c);
        }
        let a = c.request();
        (c, a)
    }
}

/// What listing shows is what cleanup deletes: for the same listed Services
/// and Deployments, a cleanup that starts in `namespace` and gets both lists
/// deletes exactly the resources of the listing, in the same order.
pub proof fn lemma_listing_matches_cleanup(
    listing: Seq<(Seq<char>, Seq<char>, Seq<char>)>,
    namespace: Seq<char>,
    services: Seq<ListedResource>,
    deployments: Seq<ListedResource>,
    start: CleanupModel,
    listed_services: CleanupModel,
    listed_all: CleanupModel,
)
    requires
        cleanup_listing(listing, namespace, services, deployments),
        start.stage == CleanupStage::ListingServices,
        start.namespace == namespace,
        advanced(start, CleanupReply::Listed(services), listed_services),
        advanced(listed_services, CleanupReply::Listed(deployments), listed_all),
    ensures
        listed_all.targets == listing,
{
    let k = services.len() as int;
    lemma_sorted_by_name_unique(
        listed_services.services,
        listing.take(k),
        listed_views("Service"@, namespace, services),
    );
    let m = listed_services.services.len() as int;
    assert(m == k);
    lemma_sorted_by_name_unique(
        listed_all.targets.skip(m),
        listing.skip(k),
        listed_views("Deployment"@, namespace, deployments),
    );
    assert(listed_all.targets =~= listed_all.targets.take(m) + listed_all.targets.skip(m));
    assert(listing =~= listing.take(k) + listing.skip(k));
}

} // verus!
