//! Reading the repository's settings documents (cargo-deny, dist and
//! toolchain configuration, Cargo manifests and CI workflows) into the facts
//! that the repository policy checks judge.

use vstd::prelude::*;
use crate::json::{
    JsonValue, field, text_of, bool_of, array_of, items_of, texts_of, get_field, text_field,
    bool_field, items_field, array_field, texts_in,
};
use crate::k8s::opt_chars;
use crate::order::views;
use crate::policy::{CrateLicenseFact, DenyConfigFacts, ReleasePlanningFacts, ToolchainFacts};

verus! {

/// The member `inner` of the member `outer` of a document.
pub open spec fn at2(doc: JsonValue, outer: Seq<char>, inner: Seq<char>) -> Option<JsonValue> {
    field(field(Some(doc), outer), inner)
}

/// `v` is an array with no items.
pub open spec fn empty_array(v: Option<JsonValue>) -> bool {
    match array_of(v) {
        Some(items) => items.len() == 0,
        None => false,
    }
}

/// `f` holds what the cargo-deny configuration `doc` says, with the given
/// verdict on its confidence threshold.
pub open spec fn deny_facts_of(doc: JsonValue, threshold_ok: bool, f: DenyConfigFacts) -> bool {
    &&& opt_chars(f.advisories_yanked) == text_of(at2(doc, "advisories"@, "yanked"@))
    &&& f.advisories_ignore_empty == empty_array(at2(doc, "advisories"@, "ignore"@))
    &&& views(f.allowed_licenses@) == texts_of(items_of(at2(doc, "licenses"@, "allow"@)))
    &&& f.confidence_threshold_sufficient == threshold_ok
    &&& opt_chars(f.bans_multiple_versions) == text_of(at2(doc, "bans"@, "multiple-versions"@))
    &&& opt_chars(f.bans_wildcards) == text_of(at2(doc, "bans"@, "wildcards"@))
    &&& opt_chars(f.bans_highlight) == text_of(at2(doc, "bans"@, "highlight"@))
}

/// Read the settings the cargo-deny check judges from its configuration;
/// whether the confidence threshold is high enough is decided by the caller.
pub fn deny_config_facts(doc: &JsonValue, confidence_threshold_sufficient: bool) -> (f: DenyConfigFacts)
    ensures
        deny_facts_of(*doc, confidence_threshold_sufficient, f),
{
    let advisories = get_field(Some(doc), "advisories");
    let licenses = get_field(Some(doc), "licenses");
    let bans = get_field(Some(doc), "bans");
    let advisories_ignore_empty = match items_field(advisories, "ignore") {
        Some(items) => items.len() == 0,
        None => false,
    };
    DenyConfigFacts {
        advisories_yanked: text_field(advisories, "yanked"),
        advisories_ignore_empty,
        allowed_licenses: texts_in(array_field(licenses, "allow")),
        confidence_threshold_sufficient,
        bans_multiple_versions: text_field(bans, "multiple-versions"),
        bans_wildcards: text_field(bans, "wildcards"),
        bans_highlight: text_field(bans, "highlight"),
    }
}

/// Read the toolchain file's channel and components beside the CI workflow.
pub fn toolchain_facts(
    toolchain_path: String,
    toolchain: &JsonValue,
    workflow_path: String,
    workflow_source: String,
) -> (f: ToolchainFacts)
    ensures
        f.toolchain_path == toolchain_path,
        opt_chars(f.channel) == text_of(at2(*toolchain, "toolchain"@, "channel"@)),
        views(f.components@) == texts_of(items_of(at2(*toolchain, "toolchain"@, "components"@))),
        f.workflow_path == workflow_path,
        f.workflow_source == workflow_source,
{
    let section = get_field(Some(toolchain), "toolchain");
    ToolchainFacts {
        toolchain_path,
        channel: text_field(section, "channel"),
        components: texts_in(array_field(section, "components")),
        workflow_path,
        workflow_source,
    }
}

/// The event `event` of a workflow's `on` mapping.
pub open spec fn workflow_event(workflow: JsonValue, event: Seq<char>) -> Option<JsonValue> {
    at2(workflow, "on"@, event)
}

/// The `run` commands of a list of steps, in order; steps that are not
/// mappings or whose `run` is not a string are skipped.
pub open spec fn step_runs(steps: Seq<JsonValue>) -> Seq<Seq<char>>
    decreases steps.len(),
{
    if steps.len() == 0 {
        Seq::empty()
    } else {
        step_runs(steps.drop_last()) + match text_of(field(Some(steps.last()), "run"@)) {
            Some(t) => seq![t],
            None => Seq::empty(),
        }
    }
}

/// The `run` commands of the steps of each job, job by job in order.
pub open spec fn job_runs(jobs: Seq<(String, JsonValue)>) -> Seq<Seq<char>>
    decreases jobs.len(),
{
    if jobs.len() == 0 {
        Seq::empty()
    } else {
        job_runs(jobs.drop_last()) + step_runs(items_of(field(Some(jobs.last().1), "steps"@)))
    }
}

/// The `run` commands of a workflow's jobs.
pub open spec fn workflow_runs(workflow: JsonValue) -> Seq<Seq<char>> {
    match field(Some(workflow), "jobs"@) {
        Some(JsonValue::Object(jobs)) => job_runs(jobs@),
        _ => Seq::empty(),
    }
}

/// Append the `run` commands of `steps` to `r`.
fn push_step_runs(r: &mut Vec<String>, steps: &[JsonValue])
    ensures
        views(final(r)@) == views(old(r)@) + step_runs(steps@),
{
    let ghost start = views(r@);
    let n = steps.len();
    for i in 0..n
        invariant
            n == steps@.len(),
            views(r@) == start + step_runs(steps@.take(i as int)),
    {
        proof {
            assert(steps@.take(i + 1).drop_last() =~= steps@.take(i as int));
            assert(steps@.take(i + 1).last() == steps@[i as int]);
        }
        let ghost before = views(r@);
        match text_field(Some(&steps[i]), "run") {
            Some(t) => {
                let ghost tv = t@;
                r.push(t);
                assert(views(r@) =~= before + seq![tv]);
            },
            None => {
                assert(views(r@) =~= before + Seq::<Seq<char>>::empty());
            },
        }
    }
    assert(steps@.take(n as int) =~= steps@);
}

/// The `run` commands of every step of every job of a workflow, in order.
pub fn workflow_run_commands(workflow: &JsonValue) -> (r: Vec<String>)
    ensures
        views(r@) == workflow_runs(*workflow),
{
    let mut r: Vec<String> = Vec::new();
    match get_field(Some(workflow), "jobs") {
        Some(JsonValue::Object(jobs)) => {
            let n = jobs.len();
            for i in 0..n
                invariant
                    n == jobs@.len(),
                    workflow_runs(*workflow) == job_runs(jobs@),
                    views(r@) == job_runs(jobs@.take(i as int)),
            {
                proof {
                    assert(jobs@.take(i + 1).drop_last() =~= jobs@.take(i as int));
                    assert(jobs@.take(i + 1).last() == jobs@[i as int]);
                }
                push_step_runs(&mut r, array_field(Some(&jobs[i].1), "steps"));
            }
            assert(jobs@.take(n as int) =~= jobs@);
        },
        _ => {
            assert(views(r@) =~= Seq::<Seq<char>>::empty());
        },
    }
    r
}

/// Read the release plan settings of the dist configuration and the release
/// workflow's triggers and commands.
pub fn release_planning_facts(dist: &JsonValue, workflow: &JsonValue) -> (f: ReleasePlanningFacts)
    ensures
        opt_chars(f.cargo_dist_version) == text_of(at2(*dist, "dist"@, "cargo-dist-version"@)),
        opt_chars(f.pr_run_mode) == text_of(at2(*dist, "dist"@, "pr-run-mode"@)),
        f.runs_on_pull_request == workflow_event(*workflow, "pull_request"@) is Some,
        f.runs_on_push == workflow_event(*workflow, "push"@) is Some,
        f.runs_on_tag_push == field(workflow_event(*workflow, "push"@), "tags"@) is Some,
        views(f.run_commands@) == workflow_runs(*workflow),
{
    let section = get_field(Some(dist), "dist");
    let events = get_field(Some(workflow), "on");
    let push = get_field(events, "push");
    ReleasePlanningFacts {
        cargo_dist_version: text_field(section, "cargo-dist-version"),
        pr_run_mode: text_field(section, "pr-run-mode"),
        runs_on_pull_request: get_field(events, "pull_request").is_some(),
        runs_on_push: push.is_some(),
        runs_on_tag_push: get_field(push, "tags").is_some(),
        run_commands: workflow_run_commands(workflow),
    }
}

/// `workspace.package.license` of the workspace manifest, when a string.
pub fn workspace_license(manifest: &JsonValue) -> (r: Option<String>)
    ensures
        opt_chars(r) == text_of(field(at2(*manifest, "workspace"@, "package"@), "license"@)),
{
    let package = get_field(get_field(Some(manifest), "workspace"), "package");
    text_field(package, "license")
}

/// Whether a crate manifest says `package.license.workspace = true`.
pub fn crate_license_fact(manifest_path: String, crate_manifest: &JsonValue) -> (f: CrateLicenseFact)
    ensures
        f.manifest_path == manifest_path,
        f.inherits_workspace_license
            == (bool_of(field(at2(*crate_manifest, "package"@, "license"@), "workspace"@)) == Some(true)),
{
    let license = get_field(get_field(Some(crate_manifest), "package"), "license");
    let inherits = match bool_field(license, "workspace") {
        Some(b) => b,
        None => false,
    };
    CrateLicenseFact { manifest_path, inherits_workspace_license: inherits }
}

/// Every item is a string.
pub open spec fn all_texts(items: Seq<JsonValue>) -> bool {
    forall|i: int| 0 <= i < items.len() ==> (#[trigger] text_of(Some(items[i]))) is Some
}

/// `workspace.members` of the workspace manifest: none when it is not a list,
/// nothing when one of its items is not a string.
pub fn workspace_members(manifest: &JsonValue) -> (r: Option<Vec<String>>)
    ensures
        match array_of(at2(*manifest, "workspace"@, "members"@)) {
            None => r matches Some(v) && v@.len() == 0,
            Some(items) => match r {
                Some(v) => all_texts(items) && views(v@) == texts_of(items),
                None => !all_texts(items),
            },
        },
{
    let items = match items_field(get_field(Some(manifest), "workspace"), "members") {
        Some(items) => items,
        None => return Some(Vec::new()),
    };
    let n = items.len();
    for i in 0..n
        invariant
            n == items@.len(),
            array_of(at2(*manifest, "workspace"@, "members"@)) == Some(items@),
            forall|j: int| 0 <= j < i ==> (#[trigger] text_of(Some(items@[j]))) is Some,
    {
        match &items[i] {
            JsonValue::String(_) => {},
            _ => {
                assert(text_of(Some(items@[i as int])) is None);
                return None;
            },
        }
    }
    Some(texts_in(items))
}

} // verus!
