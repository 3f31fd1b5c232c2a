//! Repository policy checks: what the documentation, license files, tool
//! configuration and release workflow of the repository must say.
//!
//! Each check takes what was read from the repository as plain values and
//! returns its findings, one message per issue, in a fixed order. Reading the
//! files and reporting the findings is left to the caller.

use vstd::prelude::*;
use crate::k8s::opt_chars;
use crate::checks::{
    bounded_from, contains_crate_name, has_non_placeholder_public_item, has_placeholder_marker,
    heading_at, markdown_has_heading_outside_code_block, pins_toolchain, placeholder_line,
    public_item_line, workflow_installs_toolchain,
};
use crate::lines::{contains_text, lines_of, starts_with, starts_with_chars, text_contains, text_lines};
use crate::lines::{trim, trim_chars};
use crate::pattern::{capture_views, captures_of, captures_or_none, group, group_of};
use crate::sanitize::{blanked_lines, strip_rust_comments_and_strings};
use crate::text::{ascii_lower, chars_of, string_from_chars, to_ascii_lowercase};
use crate::order::{sort_unique_strings, strictly_sorted, views};
use crate::text::{push_str, str_eq, string_of};

verus! {

/// One message when `cond` holds, none otherwise.
pub open spec fn issue_if(cond: bool, message: Seq<char>) -> Seq<Seq<char>> {
    if cond {
        seq![message]
    } else {
        Seq::empty()
    }
}

/// The phrases of `phrases` that `source` does not contain, in order.
pub open spec fn missing_of(source: Seq<char>, phrases: Seq<Seq<char>>) -> Seq<Seq<char>> {
    phrases.filter(|p: Seq<char>| !contains_text(source, p))
}

/// Appending a phrase adds it to the missing ones exactly when it is missing.
proof fn lemma_missing_push(source: Seq<char>, phrases: Seq<Seq<char>>, p: Seq<char>)
    ensures
        missing_of(source, phrases.push(p)) == if contains_text(source, p) {
            missing_of(source, phrases)
        } else {
            missing_of(source, phrases).push(p)
        },
{
    reveal(Seq::filter);
    assert(phrases.push(p).drop_last() =~= phrases);
}

/// The phrases that `source` does not contain, in the order given.
pub fn missing_phrases(source: &str, phrases: &[String]) -> (r: Vec<String>)
    ensures
        views(r@) == missing_of(source@, views(phrases@)),
{
    let mut r: Vec<String> = Vec::new();
    let n = phrases.len();
    for i in 0..n
        invariant
            n == phrases@.len(),
            views(r@) == missing_of(source@, views(phrases@).take(i as int)),
    {
        let p = phrases[i].as_str();
        proof {
            assert(views(phrases@).take(i + 1) =~= views(phrases@).take(i as int).push(p@));
            lemma_missing_push(source@, views(phrases@).take(i as int), p@);
        }
        if !text_contains(source, p) {
            r.push(string_of(p));
            assert(views(r@) =~= missing_of(source@, views(phrases@).take(i as int)).push(p@));
        }
    }
    assert(views(phrases@).take(n as int) =~= views(phrases@));
    r
}

/// Whether an optional value is present and equal to `t`.
fn opt_is(o: &Option<String>, t: &str) -> (r: bool)
    ensures
        r == (opt_chars(*o) == Some(t@)),
{
    match o {
        Some(v) => str_eq(v.as_str(), t),
        None => false,
    }
}

/// Add one message when `cond` holds.
fn push_issue_if(r: &mut Vec<String>, cond: bool, message: &str)
    ensures
        views(final(r)@) == views(old(r)@) + issue_if(cond, message@),
{
    let ghost before = views(r@);
    if cond {
        r.push(string_of(message));
        assert(views(r@) =~= before + seq![message@]);
    } else {
        assert(views(r@) =~= before + Seq::<Seq<char>>::empty());
    }
}

// ---------------------------------------------------------------- cargo-deny

/// What the cargo-deny policy check reads from `deny.toml`.
#[derive(Debug, Clone, PartialEq, Eq)]
pub struct DenyConfigFacts {
    /// `advisories.yanked`, when it is a string.
    pub advisories_yanked: Option<String>,
    /// Whether `advisories.ignore` is an array with no items.
    pub advisories_ignore_empty: bool,
    /// The string items of `licenses.allow`.
    pub allowed_licenses: Vec<String>,
    /// Whether `licenses.confidence-threshold` is a number of at least 0.8.
    pub confidence_threshold_sufficient: bool,
    /// `bans.multiple-versions`, when it is a string.
    pub bans_multiple_versions: Option<String>,
    /// `bans.wildcards`, when it is a string.
    pub bans_wildcards: Option<String>,
    /// `bans.highlight`, when it is a string.
    pub bans_highlight: Option<String>,
}

/// The licenses that cargo-deny must allow, and no others.
pub open spec fn expected_license(l: Seq<char>) -> bool {
    l == "Apache-2.0"@ || l == "MIT"@ || l == "Unicode-3.0"@
}

/// The allowed licenses are exactly the expected ones.
pub open spec fn licenses_exact(allowed: Seq<Seq<char>>) -> bool {
    &&& forall|i: int| 0 <= i < allowed.len() ==> expected_license(#[trigger] allowed[i])
    &&& allowed.contains("Apache-2.0"@)
    &&& allowed.contains("MIT"@)
    &&& allowed.contains("Unicode-3.0"@)
}

/// The cargo-deny policy issues, in the order they are reported.
pub open spec fn deny_config_issue_list(f: DenyConfigFacts) -> Seq<Seq<char>> {
    issue_if(opt_chars(f.advisories_yanked) != Some("deny"@), "advisories.yanked must be deny"@)
        + issue_if(!f.advisories_ignore_empty, "advisories.ignore must stay empty"@)
        + issue_if(
        !licenses_exact(views(f.allowed_licenses@)),
        "licenses.allow must be exactly {\"Apache-2.0\", \"MIT\", \"Unicode-3.0\"}"@,
    ) + issue_if(
        !f.confidence_threshold_sufficient,
        "licenses.confidence-threshold must be at least 0.8"@,
    ) + issue_if(
        opt_chars(f.bans_multiple_versions) != Some("deny"@),
        "bans.multiple-versions must be deny"@,
    ) + issue_if(opt_chars(f.bans_wildcards) != Some("allow"@), "bans.wildcards must be allow"@)
        + issue_if(opt_chars(f.bans_highlight) != Some("all"@), "bans.highlight must be all"@)
}

/// Whether some string of `v` is `t`.
fn list_contains(v: &Vec<String>, t: &str) -> (r: bool)
    ensures
        r == views(v@).contains(t@),
{
    let n = v.len();
    for i in 0..n
        invariant
            n == v@.len(),
            forall|k: int| 0 <= k < i ==> views(v@)[k] != t@,
    {
        if str_eq(v[i].as_str(), t) {
            assert(views(v@)[i as int] == t@);
            return true;
        }
    }
    false
}

/// Decide [`licenses_exact`].
fn allowed_licenses_exact(allowed: &Vec<String>) -> (r: bool)
    ensures
        r == licenses_exact(views(allowed@)),
{
    let ghost v = views(allowed@);
    let n = allowed.len();
    for i in 0..n
        invariant
            n == allowed@.len(),
            v == views(allowed@),
            forall|k: int| 0 <= k < i ==> expected_license(#[trigger] v[k]),
    {
        let l = allowed[i].as_str();
        assert(v[i as int] == l@);
        if !(str_eq(l, "Apache-2.0") || str_eq(l, "MIT") || str_eq(l, "Unicode-3.0")) {
            return false;
        }
    }
    list_contains(allowed, "Apache-2.0") && list_contains(allowed, "MIT") && list_contains(
        allowed,
        "Unicode-3.0",
    )
}

/// The issues with a cargo-deny configuration, as
/// [`deny_config_issue_list`] states.
pub fn deny_config_issues(facts: &DenyConfigFacts) -> (r: Vec<String>)
    ensures
        views(r@) == deny_config_issue_list(*facts),
{
    let mut r: Vec<String> = Vec::new();
    assert(views(r@) =~= Seq::<Seq<char>>::empty());
    push_issue_if(&mut r, !opt_is(&facts.advisories_yanked, "deny"), "advisories.yanked must be deny");
    push_issue_if(&mut r, !facts.advisories_ignore_empty, "advisories.ignore must stay empty");
    push_issue_if(
        &mut r,
        !allowed_licenses_exact(&facts.allowed_licenses),
        "licenses.allow must be exactly {\"Apache-2.0\", \"MIT\", \"Unicode-3.0\"}",
    );
    push_issue_if(
        &mut r,
        !facts.confidence_threshold_sufficient,
        "licenses.confidence-threshold must be at least 0.8",
    );
    push_issue_if(
        &mut r,
        !opt_is(&facts.bans_multiple_versions, "deny"),
        "bans.multiple-versions must be deny",
    );
    push_issue_if(&mut r, !opt_is(&facts.bans_wildcards, "allow"), "bans.wildcards must be allow");
    push_issue_if(&mut r, !opt_is(&facts.bans_highlight, "all"), "bans.highlight must be all");
    r
}

// ------------------------------------------------------------ release plan

/// What the release planning check reads from `dist-workspace.toml` and the
/// release workflow.
#[derive(Debug, Clone, PartialEq, Eq)]
pub struct ReleasePlanningFacts {
    /// `dist.cargo-dist-version`, when it is a string.
    pub cargo_dist_version: Option<String>,
    /// `dist.pr-run-mode`, when it is a string.
    pub pr_run_mode: Option<String>,
    /// Whether the workflow runs on `pull_request`.
    pub runs_on_pull_request: bool,
    /// Whether the workflow runs on `push`.
    pub runs_on_push: bool,
    /// Whether the workflow runs on tag pushes.
    pub runs_on_tag_push: bool,
    /// The `run` commands of the workflow's steps.
    pub run_commands: Vec<String>,
}

/// Some command of `commands` contains `t`.
pub open spec fn some_contains(commands: Seq<Seq<char>>, t: Seq<char>) -> bool {
    exists|i: int| 0 <= i < commands.len() && contains_text(#[trigger] commands[i], t)
}

/// The release planning issues, in the order they are reported.
pub open spec fn release_planning_issue_list(f: ReleasePlanningFacts) -> Seq<Seq<char>> {
    let c = views(f.run_commands@);
    issue_if(
        opt_chars(f.cargo_dist_version) != Some("0.32.0"@),
        "dist.cargo-dist-version must stay pinned to 0.32.0"@,
    ) + issue_if(opt_chars(f.pr_run_mode) != Some("plan"@), "dist.pr-run-mode must stay plan"@)
        + issue_if(!f.runs_on_pull_request, "release workflow must run on pull_request"@)
        + issue_if(f.runs_on_push, "release workflow must not run on push"@) + issue_if(
        f.runs_on_tag_push,
        "release workflow must not run on tag pushes"@,
    ) + issue_if(
        some_contains(c, "dist build"@),
        "release workflow must not contain publishing command: dist build"@,
    ) + issue_if(
        some_contains(c, "dist host"@),
        "release workflow must not contain publishing command: dist host"@,
    ) + issue_if(
        some_contains(c, "dist publish"@),
        "release workflow must not contain publishing command: dist publish"@,
    ) + issue_if(!some_contains(c, "dist plan"@), "release workflow must keep dist plan command"@)
}

/// Decide [`some_contains`].
fn any_contains(commands: &Vec<String>, t: &str) -> (r: bool)
    ensures
        r == some_contains(views(commands@), t@),
{
    let n = commands.len();
    for i in 0..n
        invariant
            n == commands@.len(),
            forall|k: int| 0 <= k < i ==> !contains_text(#[trigger] views(commands@)[k], t@),
    {
        assert(views(commands@)[i as int] == commands@[i as int]@);
        if text_contains(commands[i].as_str(), t) {
            return true;
        }
    }
    false
}

/// The issues with release planning, as [`release_planning_issue_list`]
/// states.
pub fn release_planning_issues(facts: &ReleasePlanningFacts) -> (r: Vec<String>)
    ensures
        views(r@) == release_planning_issue_list(*facts),
{
    let mut r: Vec<String> = Vec::new();
    assert(views(r@) =~= Seq::<Seq<char>>::empty());
    push_issue_if(
        &mut r,
        !opt_is(&facts.cargo_dist_version, "0.32.0"),
        "dist.cargo-dist-version must stay pinned to 0.32.0",
    );
    push_issue_if(&mut r, !opt_is(&facts.pr_run_mode, "plan"), "dist.pr-run-mode must stay plan");
    push_issue_if(&mut r, !facts.runs_on_pull_request, "release workflow must run on pull_request");
    push_issue_if(&mut r, facts.runs_on_push, "release workflow must not run on push");
    push_issue_if(&mut r, facts.runs_on_tag_push, "release workflow must not run on tag pushes");
    push_issue_if(
        &mut r,
        any_contains(&facts.run_commands, "dist build"),
        "release workflow must not contain publishing command: dist build",
    );
    push_issue_if(
        &mut r,
        any_contains(&facts.run_commands, "dist host"),
        "release workflow must not contain publishing command: dist host",
    );
    push_issue_if(
        &mut r,
        any_contains(&facts.run_commands, "dist publish"),
        "release workflow must not contain publishing command: dist publish",
    );
    push_issue_if(
        &mut r,
        !any_contains(&facts.run_commands, "dist plan"),
        "release workflow must keep dist plan command",
    );
    r
}

// ----------------------------------------------------------------- licenses

/// Whether one crate manifest inherits the workspace license.
#[derive(Debug, Clone, PartialEq, Eq)]
pub struct CrateLicenseFact {
    /// The crate manifest's path, as displayed.
    pub manifest_path: String,
    /// Whether `package.license.workspace` is `true`.
    pub inherits_workspace_license: bool,
}

/// What the license check reads from the repository.
#[derive(Debug, Clone, PartialEq, Eq)]
pub struct LicenseFacts {
    /// Contents of `LICENSE`.
    pub license_text: String,
    /// Contents of `NOTICE`.
    pub notice_text: String,
    /// `workspace.package.license` of the workspace manifest, when a string.
    pub workspace_license: Option<String>,
    /// One entry per workspace crate, in inventory order.
    pub crate_manifests: Vec<CrateLicenseFact>,
}

/// A message for each phrase that `text` lacks, in order.
pub open spec fn phrase_issues(text: Seq<char>, prefix: Seq<char>, phrases: Seq<Seq<char>>) -> Seq<Seq<char>>
    decreases phrases.len(),
{
    if phrases.len() == 0 {
        Seq::empty()
    } else {
        phrase_issues(text, prefix, phrases.drop_last()) + issue_if(
            !contains_text(text, phrases.last()),
            prefix + phrases.last(),
        )
    }
}

/// A message for each crate manifest that does not inherit the workspace
/// license, in order.
pub open spec fn crate_license_issues(s: Seq<CrateLicenseFact>) -> Seq<Seq<char>>
    decreases s.len(),
{
    if s.len() == 0 {
        Seq::empty()
    } else {
        crate_license_issues(s.drop_last()) + issue_if(
            !s.last().inherits_workspace_license,
            s.last().manifest_path@ + " must inherit license.workspace = true"@,
        )
    }
}

/// Phrases that `LICENSE` must contain.
pub open spec fn license_phrases() -> Seq<Seq<char>> {
    seq!["Apache License"@, "Version 2.0, January 2004"@, "http://www.apache.org/licenses/"@]
}

/// Phrases that `NOTICE` must contain.
pub open spec fn notice_phrases() -> Seq<Seq<char>> {
    seq!["Kply"@, "Copyright 2026 Kubeply"@, "software developed by Kubeply"@]
}

/// The license issues, in the order they are reported.
pub open spec fn license_issue_list(f: LicenseFacts) -> Seq<Seq<char>> {
    phrase_issues(f.license_text@, "LICENSE is missing Apache-2.0 phrase: "@, license_phrases())
        + phrase_issues(f.notice_text@, "NOTICE is missing required phrase: "@, notice_phrases())
        + issue_if(
        opt_chars(f.workspace_license) != Some("Apache-2.0"@),
        "workspace package license must be Apache-2.0"@,
    ) + crate_license_issues(f.crate_manifests@)
}

/// Add a message for each phrase that `text` lacks.
fn push_phrase_issues(r: &mut Vec<String>, text: &str, prefix: &str, phrases: &[&str])
    ensures
        views(final(r)@) == views(old(r)@) + phrase_issues(
            text@,
            prefix@,
            phrases@.map_values(|p: &str| p@),
        ),
{
    let ghost ps = phrases@.map_values(|p: &str| p@);
    let ghost start = views(r@);
    let n = phrases.len();
    for i in 0..n
        invariant
            n == phrases@.len(),
            ps == phrases@.map_values(|p: &str| p@),
            views(r@) == start + phrase_issues(text@, prefix@, ps.take(i as int)),
    {
        let p = phrases[i];
        proof {
            assert(ps.take(i + 1).drop_last() =~= ps.take(i as int));
            assert(ps.take(i + 1).last() == p@);
        }
        let ghost before = views(r@);
        if !text_contains(text, p) {
            let mut m = string_of(prefix);
            push_str(&mut m, p);
            r.push(m);
            assert(views(r@) =~= before + seq![prefix@ + p@]);
        } else {
            assert(views(r@) =~= before + Seq::<Seq<char>>::empty());
        }
        assert(views(r@) =~= start + phrase_issues(text@, prefix@, ps.take(i + 1)));
    }
    assert(ps.take(n as int) =~= ps);
}

/// The license issues of a repository, as [`license_issue_list`] states.
pub fn license_issues(facts: &LicenseFacts) -> (r: Vec<String>)
    ensures
        views(r@) == license_issue_list(*facts),
{
    let mut r: Vec<String> = Vec::new();
    assert(views(r@) =~= Seq::<Seq<char>>::empty());
    let lp: [&str; 3] = ["Apache License", "Version 2.0, January 2004", "http://www.apache.org/licenses/"];
    let np: [&str; 3] = ["Kply", "Copyright 2026 Kubeply", "software developed by Kubeply"];
    proof {
        assert(lp@.map_values(|p: &str| p@) =~= license_phrases());
        assert(np@.map_values(|p: &str| p@) =~= notice_phrases());
    }
    push_phrase_issues(&mut r, facts.license_text.as_str(), "LICENSE is missing Apache-2.0 phrase: ", &lp);
    push_phrase_issues(&mut r, facts.notice_text.as_str(), "NOTICE is missing required phrase: ", &np);
    push_issue_if(
        &mut r,
        !opt_is(&facts.workspace_license, "Apache-2.0"),
        "workspace package license must be Apache-2.0",
    );
    let ghost start = views(r@);
    let crates = &facts.crate_manifests;
    let n = crates.len();
    for i in 0..n
        invariant
            n == crates@.len(),
            crates == &facts.crate_manifests,
            views(r@) == start + crate_license_issues(crates@.take(i as int)),
    {
        let c = &crates[i];
        proof {
            assert(crates@.take(i + 1).drop_last() =~= crates@.take(i as int));
            assert(crates@.take(i + 1).last() == *c);
        }
        let ghost before = views(r@);
        if !c.inherits_workspace_license {
            let mut m = string_of(c.manifest_path.as_str());
            push_str(&mut m, " must inherit license.workspace = true");
            r.push(m);
            assert(views(r@) =~= before + seq![c.manifest_path@ + " must inherit license.workspace = true"@]);
        } else {
            assert(views(r@) =~= before + Seq::<Seq<char>>::empty());
        }
        assert(views(r@) =~= start + crate_license_issues(crates@.take(i + 1)));
    }
    assert(crates@.take(n as int) =~= crates@);
    r
}

// ---------------------------------------------------------------- toolchain

/// What the toolchain pin check reads from `rust-toolchain.toml` and the CI
/// workflow.
#[derive(Debug, Clone, PartialEq, Eq)]
pub struct ToolchainFacts {
    /// Path of the toolchain file, as displayed.
    pub toolchain_path: String,
    /// `toolchain.channel`, when it is a string.
    pub channel: Option<String>,
    /// The string items of `toolchain.components`.
    pub components: Vec<String>,
    /// Path of the CI workflow, as displayed.
    pub workflow_path: String,
    /// Contents of the CI workflow.
    pub workflow_source: String,
}

/// Some line of `workflow`, trimmed, is `toolchain:` followed by `channel`
/// (surrounding whitespace aside).
pub open spec fn installs_toolchain(workflow: Seq<char>, channel: Seq<char>) -> bool {
    exists|i: int| 0 <= i < text_lines(workflow).len() && pins_toolchain(
        #[trigger] text_lines(workflow)[i],
        channel,
    )
}

/// The toolchain pin issues, in the order they are reported.
pub open spec fn toolchain_issue_list(f: ToolchainFacts, channel: Seq<char>) -> Seq<Seq<char>> {
    issue_if(
        opt_chars(f.channel) != Some(channel),
        f.toolchain_path@ + " must pin channel = \""@ + channel + "\""@,
    ) + issue_if(
        !views(f.components@).contains("clippy"@),
        f.toolchain_path@ + " must include Rust component clippy"@,
    ) + issue_if(
        !views(f.components@).contains("rustfmt"@),
        f.toolchain_path@ + " must include Rust component rustfmt"@,
    ) + issue_if(
        !installs_toolchain(f.workflow_source@, channel),
        f.workflow_path@ + " must install Rust toolchain "@ + channel,
    )
}

/// Add `a + b + c` as a message when `cond` holds.
fn push_joined_if(r: &mut Vec<String>, cond: bool, a: &str, b: &str, c: &str)
    ensures
        views(final(r)@) == views(old(r)@) + issue_if(cond, a@ + b@ + c@),
{
    let ghost before = views(r@);
    if cond {
        let mut m = string_of(a);
        push_str(&mut m, b);
        push_str(&mut m, c);
        r.push(m);
        assert(views(r@) =~= before + seq![a@ + b@ + c@]);
    } else {
        assert(views(r@) =~= before + Seq::<Seq<char>>::empty());
    }
}

/// The toolchain pin issues, as [`toolchain_issue_list`] states.
pub fn toolchain_pin_issues(facts: &ToolchainFacts, expected_channel: &str) -> (r: Vec<String>)
    ensures
        views(r@) == toolchain_issue_list(*facts, expected_channel@),
{
    let mut r: Vec<String> = Vec::new();
    assert(views(r@) =~= Seq::<Seq<char>>::empty());
    let path = facts.toolchain_path.as_str();
    let mut pin = string_of(" must pin channel = \"");
    push_str(&mut pin, expected_channel);
    push_joined_if(&mut r, !opt_is(&facts.channel, expected_channel), path, pin.as_str(), "\"");
    assert(path@ + pin@ + "\""@ == path@ + " must pin channel = \""@ + expected_channel@ + "\""@);
    push_joined_if(
        &mut r,
        !list_contains(&facts.components, "clippy"),
        path,
        " must include Rust component clippy",
        "",
    );
    push_joined_if(
        &mut r,
        !list_contains(&facts.components, "rustfmt"),
        path,
        " must include Rust component rustfmt",
        "",
    );
    proof {
        reveal_strlit("");
        assert(path@ + " must include Rust component clippy"@ + ""@ =~= path@
            + " must include Rust component clippy"@);
        assert(path@ + " must include Rust component rustfmt"@ + ""@ =~= path@
            + " must include Rust component rustfmt"@);
    }
    push_joined_if(
        &mut r,
        !workflow_installs_toolchain(facts.workflow_source.as_str(), expected_channel),
        facts.workflow_path.as_str(),
        " must install Rust toolchain ",
        expected_channel,
    );
    r
}

// ------------------------------------------------------------------- README

/// The README roadmap issues, in the order they are reported.
pub open spec fn roadmap_issue_list(readme: Seq<char>) -> Seq<Seq<char>> {
    issue_if(
        !(exists|i: int| #[trigger] heading_at(text_lines(readme), "## Roadmap"@, i)),
        "missing top-level ## Roadmap heading"@,
    ) + issue_if(
        !contains_text(readme, "[docs/implementation-roadmap.md](docs/implementation-roadmap.md)"@),
        "missing markdown link to docs/implementation-roadmap.md"@,
    )
}

/// What keeps a README from having a top-level Roadmap section linking the
/// implementation roadmap, as [`roadmap_issue_list`] states.
pub fn readme_roadmap_issues(readme: &str) -> (r: Vec<String>)
    ensures
        views(r@) == roadmap_issue_list(readme@),
{
    let mut r: Vec<String> = Vec::new();
    assert(views(r@) =~= Seq::<Seq<char>>::empty());
    push_issue_if(
        &mut r,
        !markdown_has_heading_outside_code_block(readme, "## Roadmap"),
        "missing top-level ## Roadmap heading",
    );
    push_issue_if(
        &mut r,
        !text_contains(readme, "[docs/implementation-roadmap.md](docs/implementation-roadmap.md)"),
        "missing markdown link to docs/implementation-roadmap.md",
    );
    r
}

// --------------------------------------------------------- crate inventory

/// A crate of the workspace: its package name and its directory.
#[derive(Debug, Clone, Copy, PartialEq, Eq)]
pub struct WorkspaceCrate {
    /// Package name.
    pub name: &'static str,
    /// Directory, relative to the workspace root.
    pub path: &'static str,
}

/// The crates of the workspace as name and path, in inventory order.
pub open spec fn workspace_crate_list() -> Seq<(Seq<char>, Seq<char>)> {
    seq![
        ("kply-checks"@, "crates/kply-checks"@),
        ("kply-cli"@, "crates/kply-cli"@),
        ("kply-config"@, "crates/kply-config"@),
        ("kply-core"@, "crates/kply-core"@),
        ("kply-k8s"@, "crates/kply-k8s"@),
        ("kply-routing"@, "crates/kply-routing"@),
        ("kply-test"@, "crates/kply-test"@),
        ("xtask"@, "crates/xtask"@),
    ]
}

/// Name and path of each crate.
pub open spec fn crate_views(s: Seq<WorkspaceCrate>) -> Seq<(Seq<char>, Seq<char>)> {
    s.map_values(|c: WorkspaceCrate| (c.name@, c.path@))
}

/// The crates of the workspace, in inventory order.
pub fn workspace_crates() -> (r: Vec<WorkspaceCrate>)
    ensures
        crate_views(r@) == workspace_crate_list(),
{
    let r = vec![
        WorkspaceCrate { name: "kply-checks", path: "crates/kply-checks" },
        WorkspaceCrate { name: "kply-cli", path: "crates/kply-cli" },
        WorkspaceCrate { name: "kply-config", path: "crates/kply-config" },
        WorkspaceCrate { name: "kply-core", path: "crates/kply-core" },
        WorkspaceCrate { name: "kply-k8s", path: "crates/kply-k8s" },
        WorkspaceCrate { name: "kply-routing", path: "crates/kply-routing" },
        WorkspaceCrate { name: "kply-test", path: "crates/kply-test" },
        WorkspaceCrate { name: "xtask", path: "crates/xtask" },
    ];
    assert(crate_views(r@) =~= workspace_crate_list());
    r
}

/// `r` holds, in character order and once each, the strings of `a` that `b`
/// lacks.
pub open spec fn sorted_difference(r: Seq<String>, a: Seq<Seq<char>>, b: Seq<Seq<char>>) -> bool {
    &&& strictly_sorted(r)
    &&& forall|i: int| 0 <= i < r.len() ==> a.contains(#[trigger] r[i]@) && !b.contains(r[i]@)
    &&& forall|x: Seq<char>| a.contains(x) && !b.contains(x) ==> exists|i: int| 0 <= i < r.len() && (#[trigger] r[i])@ == x
}

/// Workspace members that the crate inventory lacks, and inventory crates
/// that are not workspace members.
#[derive(Debug, Clone, PartialEq, Eq)]
pub struct MemberMismatch {
    /// Inventory paths missing from the workspace members, sorted.
    pub missing: Vec<String>,
    /// Workspace members missing from the inventory, sorted.
    pub unexpected: Vec<String>,
}

/// The strings of `a` that `b` lacks, sorted, each once.
fn difference(a: &Vec<String>, b: &Vec<String>) -> (r: Vec<String>)
    ensures
        sorted_difference(r@, views(a@), views(b@)),
{
    let mut d: Vec<String> = Vec::new();
    let n = a.len();
    for i in 0..n
        invariant
            n == a@.len(),
            forall|k: int| 0 <= k < d@.len() ==> views(a@).contains(#[trigger] d@[k]@) && !views(b@).contains(
                d@[k]@,
            ),
            forall|j: int| 0 <= j < i && !views(b@).contains(#[trigger] views(a@)[j]) ==> views(d@).contains(
                views(a@)[j],
            ),
    {
        let x = a[i].as_str();
        assert(views(a@)[i as int] == x@);
        if !list_contains(b, x) {
            let ghost before = d@;
            d.push(string_of(x));
            proof {
                assert(views(d@)[before.len() as int] == x@);
                assert forall|j: int| 0 <= j < i + 1 && !views(b@).contains(#[trigger] views(a@)[j]) implies views(
                    d@,
                ).contains(views(a@)[j]) by {
                    if j < i {
                        let k = choose|k: int| 0 <= k < before.len() && views(before)[k] == views(a@)[j];
                        assert(views(d@)[k] == views(before)[k]);
                    }
                }
            }
        }
    }
    let r = sort_unique_strings(d);
    proof {
        assert forall|x: Seq<char>| views(a@).contains(x) && !views(b@).contains(x) implies exists|i: int|
            0 <= i < r@.len() && (#[trigger] r@[i])@ == x by {
            let j = choose|j: int| 0 <= j < views(a@).len() && views(a@)[j] == x;
            assert(views(d@).contains(x));
        }
    }
    r
}

/// Compare the workspace members with the crate inventory's paths: nothing
/// when they are the same set, otherwise what each side lacks.
pub fn workspace_member_mismatch(members: &Vec<String>, crates: &[WorkspaceCrate]) -> (r: Option<MemberMismatch>)
    ensures
        ({
            let paths = crate_views(crates@).map_values(|c: (Seq<char>, Seq<char>)| c.1);
            &&& r is None <==> forall|x: Seq<char>| views(members@).contains(x) == paths.contains(x)
            &&& r matches Some(m) ==> sorted_difference(m.missing@, paths, views(members@))
                && sorted_difference(m.unexpected@, views(members@), paths)
        }),
{
    let ghost paths = crate_views(crates@).map_values(|c: (Seq<char>, Seq<char>)| c.1);
    let mut expected: Vec<String> = Vec::new();
    let n = crates.len();
    for i in 0..n
        invariant
            n == crates@.len(),
            paths == crate_views(crates@).map_values(|c: (Seq<char>, Seq<char>)| c.1),
            views(expected@) == paths.take(i as int),
    {
        let ghost before = views(expected@);
        let sp = string_of(crates[i].path);
        expected.push(sp);
        assert(crate_views(crates@)[i as int] == (crates@[i as int].name@, crates@[i as int].path@));
        assert(paths[i as int] == crates@[i as int].path@);
        assert(views(expected@) =~= before.push(sp@));
        assert(views(expected@) =~= paths.take(i + 1));
    }
    assert(paths.take(n as int) =~= paths);
    let missing = difference(&expected, members);
    let unexpected = difference(members, &expected);
    if missing.len() == 0 && unexpected.len() == 0 {
        proof {
            assert forall|x: Seq<char>| views(members@).contains(x) == paths.contains(x) by {
                if views(members@).contains(x) && !paths.contains(x) {
                    let i = choose|i: int| 0 <= i < unexpected@.len() && (#[trigger] unexpected@[i])@ == x;
                }
                if paths.contains(x) && !views(members@).contains(x) {
                    let i = choose|i: int| 0 <= i < missing@.len() && (#[trigger] missing@[i])@ == x;
                }
            }
        }
        None
    } else {
        proof {
            if missing.len() > 0 {
                assert(paths.contains(missing@[0]@) && !views(members@).contains(missing@[0]@));
            } else {
                assert(views(members@).contains(unexpected@[0]@) && !paths.contains(unexpected@[0]@));
            }
        }
        Some(MemberMismatch { missing, unexpected })
    }
}

/// A documentation file as read: its path, as displayed, and its contents.
#[derive(Debug, Clone, PartialEq, Eq)]
pub struct DocSource {
    /// Path of the file, as displayed.
    pub path: String,
    /// Contents of the file.
    pub source: String,
}

/// A crate that a documentation file does not name.
#[derive(Debug, Clone, PartialEq, Eq)]
pub struct MissingInventoryEntry {
    /// Path of the documentation file, as displayed.
    pub doc_path: String,
    /// Name of the crate it does not mention.
    pub crate_name: String,
}

/// The crate names of `crates` that `source` does not name, in order.
pub open spec fn unnamed_crates(source: Seq<char>, crates: Seq<WorkspaceCrate>) -> Seq<Seq<char>>
    decreases crates.len(),
{
    if crates.len() == 0 {
        Seq::empty()
    } else {
        unnamed_crates(source, crates.drop_last()) + if bounded_from(source, crates.last().name@, 0) {
            Seq::empty()
        } else {
            seq![crates.last().name@]
        }
    }
}

/// Each documentation file with each crate it does not name: files in order,
/// and for each file its missing crates in inventory order.
pub open spec fn inventory_gaps(docs: Seq<DocSource>, crates: Seq<WorkspaceCrate>) -> Seq<(Seq<char>, Seq<char>)>
    decreases docs.len(),
{
    if docs.len() == 0 {
        Seq::empty()
    } else {
        inventory_gaps(docs.drop_last(), crates) + unnamed_crates(docs.last().source@, crates).map_values(
            |n: Seq<char>| (docs.last().path@, n),
        )
    }
}

/// Documentation path and crate name of each missing entry.
pub open spec fn entry_views(s: Seq<MissingInventoryEntry>) -> Seq<(Seq<char>, Seq<char>)> {
    s.map_values(|e: MissingInventoryEntry| (e.doc_path@, e.crate_name@))
}

/// The crate inventory entries that documentation files lack, as
/// [`inventory_gaps`] states.
pub fn missing_inventory_entries(docs: &[DocSource], crates: &[WorkspaceCrate]) -> (r: Vec<MissingInventoryEntry>)
    ensures
        entry_views(r@) == inventory_gaps(docs@, crates@),
{
    let mut r: Vec<MissingInventoryEntry> = Vec::new();
    let nd = docs.len();
    let nc = crates.len();
    for i in 0..nd
        invariant
            nd == docs@.len(),
            nc == crates@.len(),
            entry_views(r@) == inventory_gaps(docs@.take(i as int), crates@),
    {
        let d = &docs[i];
        let ghost start = entry_views(r@);
        for k in 0..nc
            invariant
                nc == crates@.len(),
                *d == docs@[i as int],
                entry_views(r@) == start + unnamed_crates(d.source@, crates@.take(k as int)).map_values(
                    |n: Seq<char>| (d.path@, n),
                ),
        {
            let c = crates[k];
            proof {
                assert(crates@.take(k + 1).drop_last() =~= crates@.take(k as int));
                assert(crates@.take(k + 1).last() == c);
            }
            let ghost before = entry_views(r@);
            if !contains_crate_name(d.source.as_str(), c.name) {
                r.push(MissingInventoryEntry { doc_path: d.path.clone(), crate_name: string_of(c.name) });
                assert(entry_views(r@) =~= before.push((d.path@, c.name@)));
            }
            assert(entry_views(r@) =~= start + unnamed_crates(d.source@, crates@.take(k + 1)).map_values(
                |n: Seq<char>| (d.path@, n),
            ));
        }
        proof {
            assert(crates@.take(nc as int) =~= crates@);
            assert(docs@.take(i + 1).drop_last() =~= docs@.take(i as int));
            assert(docs@.take(i + 1).last() == *d);
        }
    }
    assert(docs@.take(nd as int) =~= docs@);
    r
}

// ------------------------------------------------------------ documentation

/// Phrases that a documentation file must contain.
#[derive(Debug, Clone, PartialEq, Eq)]
pub struct DocExpectation {
    /// Path of the file, relative to the repository root.
    pub path: String,
    /// Phrases it must contain.
    pub required_phrases: Vec<String>,
}

/// Path and phrases of each expectation.
pub open spec fn expectation_views(s: Seq<DocExpectation>) -> Seq<(Seq<char>, Seq<Seq<char>>)> {
    s.map_values(|d: DocExpectation| (d.path@, views(d.required_phrases@)))
}

/// Owned copies of string slices.
fn strings(v: &[&str]) -> (r: Vec<String>)
    ensures
        views(r@) == v@.map_values(|x: &str| x@),
{
    let mut r: Vec<String> = Vec::new();
    let n = v.len();
    for i in 0..n
        invariant
            n == v@.len(),
            views(r@) == v@.take(i as int).map_values(|x: &str| x@),
    {
        let ghost before = views(r@);
        let sp = string_of(v[i]);
        r.push(sp);
        assert(views(r@) =~= before.push(sp@));
        assert(views(r@) =~= v@.take(i + 1).map_values(|x: &str| x@));
    }
    assert(v@.take(n as int) =~= v@);
    r
}

/// An expectation for one file.
fn expectation(path: &str, phrases: &[&str]) -> (r: DocExpectation)
    ensures
        r.path@ == path@,
        views(r.required_phrases@) == phrases@.map_values(|x: &str| x@),
{
    DocExpectation { path: string_of(path), required_phrases: strings(phrases) }
}

/// What the status documentation must say while sessions are partly implemented.
pub open spec fn future_session_doc_list() -> Seq<(Seq<char>, Seq<Seq<char>>)> {
    seq![
        ("README.md"@, seq![
            "Implementation in progress"@,
            "early runtime check support"@,
            "Session mutation commands require explicit `--apply` confirmation."@,
        ]),
        ("docs/architecture.md"@, seq![
            "Real session planning and Kubernetes execution are now implemented"@,
            "routing remains placeholder-only"@,
        ]),
        ("docs/product.md"@, seq![
            "roadmap hypothesis, partially implemented behavior"@,
            "runtime checks are landing"@,
            "routing remains placeholder-only"@,
        ]),
    ]
}

/// The phrases that the status documentation must contain, as
/// [`future_session_doc_list`] states.
pub fn future_session_doc_expectations() -> (r: Vec<DocExpectation>)
    ensures
        expectation_views(r@) == future_session_doc_list(),
{
    let pa: [&str; 3] = [
        "Implementation in progress",
        "early runtime check support",
        "Session mutation commands require explicit `--apply` confirmation.",
    ];
    let pb: [&str; 2] = [
        "Real session planning and Kubernetes execution are now implemented",
        "routing remains placeholder-only",
    ];
    let pc: [&str; 3] = [
        "roadmap hypothesis, partially implemented behavior",
        "runtime checks are landing",
        "routing remains placeholder-only",
    ];
    let a = expectation("README.md", &pa);
    let b = expectation("docs/architecture.md", &pb);
    let c = expectation("docs/product.md", &pc);
    let ghost l = future_session_doc_list();
    assert(pa@.map_values(|x: &str| x@) =~= l[0].1);
    assert(pb@.map_values(|x: &str| x@) =~= l[1].1);
    assert(pc@.map_values(|x: &str| x@) =~= l[2].1);
    let r = vec![a, b, c];
    assert(expectation_views(r@) =~= l);
    r
}

/// What the placeholder documentation must say.
pub open spec fn placeholder_doc_list() -> Seq<(Seq<char>, Seq<Seq<char>>)> {
    seq![
        ("README.md"@, seq!["Implementation in progress"@, "routing remains placeholder-only"@]),
        ("docs/architecture.md"@, seq!["kply CLI"@, "Real session planning and Kubernetes execution"@]),
        ("docs/product.md"@, seq![
            "roadmap hypothesis, partially implemented behavior"@,
            "routing remains placeholder-only"@,
        ]),
    ]
}

/// The phrases that the placeholder documentation must contain, as
/// [`placeholder_doc_list`] states.
pub fn placeholder_doc_expectations() -> (r: Vec<DocExpectation>)
    ensures
        expectation_views(r@) == placeholder_doc_list(),
{
    let pa: [&str; 2] = ["Implementation in progress", "routing remains placeholder-only"];
    let pb: [&str; 2] = ["kply CLI", "Real session planning and Kubernetes execution"];
    let pc: [&str; 2] = ["roadmap hypothesis, partially implemented behavior", "routing remains placeholder-only"];
    let a = expectation("README.md", &pa);
    let b = expectation("docs/architecture.md", &pb);
    let c = expectation("docs/product.md", &pc);
    let ghost l = placeholder_doc_list();
    assert(pa@.map_values(|x: &str| x@) =~= l[0].1);
    assert(pb@.map_values(|x: &str| x@) =~= l[1].1);
    assert(pc@.map_values(|x: &str| x@) =~= l[2].1);
    let r = vec![a, b, c];
    assert(expectation_views(r@) =~= l);
    r
}

/// The fixture layout that the fixture README must describe.
pub open spec fn fixture_naming_list() -> Seq<Seq<char>> {
    seq![
        "cli/<behavior-name>/"@,
        "config/<case-name>/kply.yaml"@,
        "manifests/<workload-shape>/"@,
        "k8s-responses/<api-shape>/"@,
        "reports/<workflow-name>/"@,
        "demo/<scenario-name>/"@,
    ]
}

/// The phrases on fixture naming that the fixture README must contain.
pub fn fixture_naming_phrases() -> (r: Vec<String>)
    ensures
        views(r@) == fixture_naming_list(),
{
    let r = strings(
        &[
            "cli/<behavior-name>/",
            "config/<case-name>/kply.yaml",
            "manifests/<workload-shape>/",
            "k8s-responses/<api-shape>/",
            "reports/<workflow-name>/",
            "demo/<scenario-name>/",
        ],
    );
    assert(views(r@) =~= fixture_naming_list());
    r
}

/// The testing guidance that the fixture README must give.
pub open spec fn fixture_testing_list() -> Seq<Seq<char>> {
    seq![
        "Snapshot Versus Direct Assertions"@,
        "Use snapshots when"@,
        "Use direct assertions when"@,
        "Prefer direct assertions for invariants and snapshots for reviewable artifacts"@,
    ]
}

/// The phrases on fixture testing that the fixture README must contain.
pub fn fixture_testing_phrases() -> (r: Vec<String>)
    ensures
        views(r@) == fixture_testing_list(),
{
    let r = strings(
        &[
            "Snapshot Versus Direct Assertions",
            "Use snapshots when",
            "Use direct assertions when",
            "Prefer direct assertions for invariants and snapshots for reviewable artifacts",
        ],
    );
    assert(views(r@) =~= fixture_testing_list());
    r
}

/// The fixture directories that must exist, in order.
pub open spec fn fixture_directory_list() -> Seq<Seq<char>> {
    seq!["cli"@, "config"@, "manifests"@, "k8s-responses"@, "reports"@, "demo"@]
}

/// The fixture directories that must exist.
pub fn required_fixture_directories() -> (r: Vec<String>)
    ensures
        views(r@) == fixture_directory_list(),
{
    let r = strings(&["cli", "config", "manifests", "k8s-responses", "reports", "demo"]);
    assert(views(r@) =~= fixture_directory_list());
    r
}

/// The Rust toolchain channel that the repository pins.
pub fn expected_rust_channel() -> (r: &'static str)
    ensures
        r@ == "1.95.0"@,
{
    "1.95.0"
}

// ------------------------------------------------------------ source files

/// A source file has module docs: its first line is a `//!` comment and its
/// second line is not.
pub open spec fn module_docs_ok(source: Seq<char>) -> bool {
    let ls = text_lines(source);
    &&& ls.len() > 0
    &&& starts_with(ls[0], "//!"@)
    &&& !(ls.len() > 1 && starts_with(ls[1], "//!"@))
}

/// Decide [`module_docs_ok`].
pub fn has_module_docs(source: &str) -> (r: bool)
    ensures
        r == module_docs_ok(source@),
{
    let lines = lines_of(source);
    let marker = chars_of("//!");
    if lines.len() == 0 {
        return false;
    }
    assert(views(lines@)[0] == lines@[0]@);
    if !starts_with_chars(&lines[0], &marker) {
        return false;
    }
    if lines.len() > 1 {
        assert(views(lines@)[1] == lines@[1]@);
        !starts_with_chars(&lines[1], &marker)
    } else {
        true
    }
}

/// A product crate source is placeholder-only: it marks a placeholder struct
/// and opens no other public item.
pub open spec fn placeholder_only(source: Seq<char>) -> bool {
    &&& exists|i: int| 0 <= i < text_lines(source).len() && placeholder_line(#[trigger] text_lines(source)[i])
    &&& !exists|i: int| 0 <= i < text_lines(source).len() && public_item_line(#[trigger] text_lines(source)[i])
}

/// Decide [`placeholder_only`].
pub fn is_placeholder_only(source: &str) -> (r: bool)
    ensures
        r == placeholder_only(source@),
{
    has_placeholder_marker(source) && !has_non_placeholder_public_item(source)
}

// ---------------------------------------------------------- Secret content

/// Field access on an identifier: `name.data` or `name.string_data`.
pub const SECRET_FIELD_ACCESS_PATTERN: &'static str = r"\b([A-Za-z_][A-Za-z0-9_]*)\s*\.\s*(data|string_data)\b";

/// An identifier typed as a Kubernetes `Secret`, by value or by reference.
pub const SECRET_TYPED_IDENTIFIER_PATTERN: &'static str = r"\b([A-Za-z_][A-Za-z0-9_]*)\s*:\s*(?:&\s*(?:'[A-Za-z_][A-Za-z0-9_]*\s*)?(?:mut\s+)?)?Secret\b";

/// Source text that would reach into Kubernetes Secret objects.
pub open spec fn forbidden_secret_pattern_list() -> Seq<Seq<char>> {
    seq!["api::core::v1::Secret"@, "core::v1::{Secret"@, "Api<Secret"@, "Api::<Secret"@, "Secret::"@]
}

/// Source text that would reach into Kubernetes Secret objects.
pub fn forbidden_secret_content_patterns() -> (r: Vec<String>)
    ensures
        views(r@) == forbidden_secret_pattern_list(),
{
    let r = strings(&["api::core::v1::Secret", "core::v1::{Secret", "Api<Secret", "Api::<Secret", "Secret::"]);
    assert(views(r@) =~= forbidden_secret_pattern_list());
    r
}

/// A place in a source file that reads, or may read, Secret contents.
#[derive(Debug, Clone, PartialEq, Eq)]
pub struct SecretContentMatch {
    /// Line number, counting from one.
    pub line: usize,
    /// The forbidden pattern, or the field read.
    pub pattern: String,
    /// The source line, trimmed.
    pub text: String,
}

/// Line, pattern and text of each match.
pub open spec fn match_views(s: Seq<SecretContentMatch>) -> Seq<(nat, Seq<char>, Seq<char>)> {
    s.map_values(|m: SecretContentMatch| (m.line as nat, m.pattern@, m.text@))
}

/// Some sanitized line types identifier `id` as a `Secret`.
pub open spec fn declared_secret(sanitized: Seq<Seq<char>>, id: Seq<char>) -> bool {
    exists|i: int, k: int|
        0 <= i < sanitized.len() && 0 <= k < captures_or_none(SECRET_TYPED_IDENTIFIER_PATTERN@, sanitized[i]).len()
            && group(#[trigger] captures_or_none(SECRET_TYPED_IDENTIFIER_PATTERN@, sanitized[i])[k], 1) == Some(id)
}

/// The forbidden patterns that a sanitized line contains, in order, as matches.
pub open spec fn pattern_hits(line: nat, text: Seq<char>, sanitized: Seq<char>, patterns: Seq<Seq<char>>) -> Seq<
    (nat, Seq<char>, Seq<char>),
>
    decreases patterns.len(),
{
    if patterns.len() == 0 {
        Seq::empty()
    } else {
        pattern_hits(line, text, sanitized, patterns.drop_last()) + if contains_text(sanitized, patterns.last()) {
            seq![(line, patterns.last(), text)]
        } else {
            Seq::empty()
        }
    }
}

/// How a field read is reported: the field, or a generic label.
pub open spec fn field_label(field: Option<Seq<char>>) -> Seq<char> {
    match field {
        Some(f) => "."@ + f,
        None => "Secret content field"@,
    }
}

/// A field read on identifier `id` reads Secret contents: the identifier
/// names a secret, or is typed as one somewhere in the file.
pub open spec fn secret_identifier(all: Seq<Seq<char>>, id: Seq<char>) -> bool {
    contains_text(ascii_lower(id), "secret"@) || declared_secret(all, id)
}

/// The field reads of a line that read Secret contents, in order.
pub open spec fn field_hits(line: nat, text: Seq<char>, caps: Seq<Seq<Option<Seq<char>>>>, all: Seq<Seq<char>>) -> Seq<
    (nat, Seq<char>, Seq<char>),
>
    decreases caps.len(),
{
    if caps.len() == 0 {
        Seq::empty()
    } else {
        field_hits(line, text, caps.drop_last(), all) + match group(caps.last(), 1) {
            Some(id) => if secret_identifier(all, id) {
                seq![(line, field_label(group(caps.last(), 2)), text)]
            } else {
                Seq::empty()
            },
            None => Seq::empty(),
        }
    }
}

/// The matches of the first `n` lines: for each line, the forbidden patterns
/// its sanitized form contains, then its field reads of Secret contents.
pub open spec fn secret_hits_upto(
    lines: Seq<Seq<char>>,
    sanitized: Seq<Seq<char>>,
    patterns: Seq<Seq<char>>,
    n: nat,
) -> Seq<(nat, Seq<char>, Seq<char>)>
    decreases n,
{
    if n == 0 {
        Seq::empty()
    } else {
        let k = (n - 1) as nat;
        secret_hits_upto(lines, sanitized, patterns, k) + pattern_hits(
            n,
            trim(lines[k as int]),
            sanitized[k as int],
            patterns,
        ) + field_hits(
            n,
            trim(lines[k as int]),
            captures_or_none(SECRET_FIELD_ACCESS_PATTERN@, sanitized[k as int]),
            sanitized,
        )
    }
}

/// The Secret content reads of a source file: its lines paired with their
/// sanitized forms (comments and literals blanked), as far as both go.
pub open spec fn secret_content_hits(source: Seq<char>, patterns: Seq<Seq<char>>) -> Seq<(nat, Seq<char>, Seq<char>)> {
    let lines = text_lines(source);
    let sanitized = blanked_lines(source);
    secret_hits_upto(
        lines,
        sanitized,
        patterns,
        if lines.len() <= sanitized.len() {
            lines.len()
        } else {
            sanitized.len()
        },
    )
}

/// The identifiers that the sanitized lines type as `Secret`.
fn secret_typed_identifiers(sanitized: &Vec<String>) -> (r: Vec<String>)
    ensures
        forall|id: Seq<char>| #[trigger] views(r@).contains(id) <==> declared_secret(views(sanitized@), id),
{
    let ghost all = views(sanitized@);
    let mut r: Vec<String> = Vec::new();
    let n = sanitized.len();
    for i in 0..n
        invariant
            n == sanitized@.len(),
            all == views(sanitized@),
            forall|id: Seq<char>| #[trigger] views(r@).contains(id) <==> exists|q: int, k: int|
                0 <= q < i && 0 <= k < captures_or_none(SECRET_TYPED_IDENTIFIER_PATTERN@, all[q]).len()
                    && group(#[trigger] captures_or_none(SECRET_TYPED_IDENTIFIER_PATTERN@, all[q])[k], 1) == Some(id),
    {
        assert(all[i as int] == sanitized@[i as int]@);
        let caps = captures_of(SECRET_TYPED_IDENTIFIER_PATTERN, sanitized[i].as_str());
        let ghost cv = capture_views(caps@);
        let m = caps.len();
        let ghost base = views(r@);
        for k in 0..m
            invariant
                m == caps@.len(),
                cv == capture_views(caps@),
                cv == captures_or_none(SECRET_TYPED_IDENTIFIER_PATTERN@, all[i as int]),
                forall|id: Seq<char>| #[trigger] views(r@).contains(id) <==> (base.contains(id) || exists|t: int|
                    0 <= t < k && group(#[trigger] cv[t], 1) == Some(id)),
        {
            assert(cv[k as int] == caps@[k as int]@.map_values(|g: Option<String>| crate::k8s::opt_chars(g)));
            let g = group_of(&caps[k], 1);
            let ghost before = views(r@);
            match g {
                Some(id) => {
                    r.push(id);
                    proof {
                        assert(views(r@) =~= before.push(id@));
                        assert forall|x: Seq<char>| #[trigger] views(r@).contains(x) <==> (base.contains(x) || exists|t: int|
                            0 <= t < k + 1 && group(#[trigger] cv[t], 1) == Some(x)) by {
                            if views(r@).contains(x) {
                                let w = choose|w: int| 0 <= w < views(r@).len() && views(r@)[w] == x;
                                if w == before.len() {
                                    assert(group(cv[k as int], 1) == Some(x));
                                } else {
                                    assert(before[w] == x);
                                    assert(before.contains(x));
                                }
                            }
                            if base.contains(x) || exists|t: int| 0 <= t < k + 1 && group(#[trigger] cv[t], 1) == Some(x) {
                                if base.contains(x) {
                                    assert(before.contains(x));
                                    let w = choose|w: int| 0 <= w < before.len() && before[w] == x;
                                    assert(views(r@)[w] == x);
                                } else {
                                    let t = choose|t: int| 0 <= t < k + 1 && group(#[trigger] cv[t], 1) == Some(x);
                                    if t < k {
                                        assert(before.contains(x));
                                        let w = choose|w: int| 0 <= w < before.len() && before[w] == x;
                                        assert(views(r@)[w] == x);
                                    } else {
                                        assert(views(r@)[before.len() as int] == x);
                                    }
                                }
                            }
                        }
                    }
                },
                None => {},
            }
        }
        proof {
            assert forall|id: Seq<char>| #[trigger] views(r@).contains(id) <==> exists|q: int, k: int|
                0 <= q < i + 1 && 0 <= k < captures_or_none(SECRET_TYPED_IDENTIFIER_PATTERN@, all[q]).len()
                    && group(#[trigger] captures_or_none(SECRET_TYPED_IDENTIFIER_PATTERN@, all[q])[k], 1) == Some(id) by {
                if views(r@).contains(id) && !base.contains(id) {
                    let t = choose|t: int| 0 <= t < m && group(#[trigger] cv[t], 1) == Some(id);
                    assert(0 <= t < captures_or_none(SECRET_TYPED_IDENTIFIER_PATTERN@, all[i as int]).len());
                }
                if exists|q: int, k: int|
                    0 <= q < i + 1 && 0 <= k < captures_or_none(SECRET_TYPED_IDENTIFIER_PATTERN@, all[q]).len()
                        && group(#[trigger] captures_or_none(SECRET_TYPED_IDENTIFIER_PATTERN@, all[q])[k], 1) == Some(id) {
                    let (q, t) = choose|q: int, k: int|
                        0 <= q < i + 1 && 0 <= k < captures_or_none(SECRET_TYPED_IDENTIFIER_PATTERN@, all[q]).len()
                            && group(#[trigger] captures_or_none(SECRET_TYPED_IDENTIFIER_PATTERN@, all[q])[k], 1) == Some(id);
                    if q == i {
                        assert(group(cv[t], 1) == Some(id));
                    }
                }
            }
        }
    }
    r
}

/// The places in a source file that read, or may read, Secret contents, as
/// [`secret_content_hits`] states.
pub fn secret_content_matches(source: &str, patterns: &[String]) -> (r: Vec<SecretContentMatch>)
    ensures
        match_views(r@) == secret_content_hits(source@, views(patterns@)),
{
    let sanitized = strip_rust_comments_and_strings(source);
    let ids = secret_typed_identifiers(&sanitized);
    let lines = lines_of(source);
    let ghost ls = text_lines(source@);
    let ghost ss = blanked_lines(source@);
    let ghost ps = views(patterns@);
    let n = if lines.len() <= sanitized.len() {
        lines.len()
    } else {
        sanitized.len()
    };
    let mut r: Vec<SecretContentMatch> = Vec::new();
    assert(match_views(r@) =~= Seq::empty());
    for i in 0..n
        invariant
            n <= lines@.len(),
            n <= sanitized@.len(),
            views(lines@) == ls,
            ls == text_lines(source@),
            views(sanitized@) == ss,
            ss == blanked_lines(source@),
            ps == views(patterns@),
            n == (if ls.len() <= ss.len() {
                ls.len()
            } else {
                ss.len()
            }),
            forall|id: Seq<char>| #[trigger] views(ids@).contains(id) <==> declared_secret(ss, id),
            match_views(r@) == secret_hits_upto(ls, ss, ps, i as nat),
    {
        assert(ls[i as int] == lines@[i as int]@);
        assert(ss[i as int] == sanitized@[i as int]@);
        let t = trim_chars(lines[i].as_slice());
        let text = string_from_chars(t.as_slice());
        let line_no = i + 1;
        let ghost base = match_views(r@);
        let np = patterns.len();
        for k in 0..np
            invariant
                np == patterns@.len(),
                ps == views(patterns@),
                text@ == trim(ls[i as int]),
                ss[i as int] == sanitized@[i as int]@,
                line_no == i + 1,
                i < sanitized@.len(),
                match_views(r@) == base + pattern_hits(line_no as nat, text@, ss[i as int], ps.take(k as int)),
        {
            let p = patterns[k].as_str();
            proof {
                assert(ps.take(k + 1).drop_last() =~= ps.take(k as int));
                assert(ps.take(k + 1).last() == p@);
            }
            let ghost before = match_views(r@);
            if text_contains(sanitized[i].as_str(), p) {
                r.push(SecretContentMatch { line: line_no, pattern: string_of(p), text: text.clone() });
                assert(match_views(r@) =~= before.push((line_no as nat, p@, text@)));
            }
            assert(match_views(r@) =~= base + pattern_hits(line_no as nat, text@, ss[i as int], ps.take(k + 1)));
        }
        assert(ps.take(np as int) =~= ps);
        let caps = captures_of(SECRET_FIELD_ACCESS_PATTERN, sanitized[i].as_str());
        let ghost cv = capture_views(caps@);
        let ghost base2 = match_views(r@);
        let nc = caps.len();
        for k in 0..nc
            invariant
                nc == caps@.len(),
                cv == capture_views(caps@),
                text@ == trim(ls[i as int]),
                line_no == i + 1,
                forall|id: Seq<char>| #[trigger] views(ids@).contains(id) <==> declared_secret(ss, id),
                match_views(r@) == base2 + field_hits(line_no as nat, text@, cv.take(k as int), ss),
        {
            proof {
                assert(cv.take(k + 1).drop_last() =~= cv.take(k as int));
                assert(cv.take(k + 1).last() == cv[k as int]);
                assert(cv[k as int] == caps@[k as int]@.map_values(|g: Option<String>| crate::k8s::opt_chars(g)));
            }
            let ghost before = match_views(r@);
            match group_of(&caps[k], 1) {
                Some(id) => {
                    let lower = to_ascii_lowercase(id.as_str());
                    if text_contains(lower.as_str(), "secret") || list_contains(&ids, id.as_str()) {
                        let label = match group_of(&caps[k], 2) {
                            Some(f) => {
                                let mut l = string_of(".");
                                push_str(&mut l, f.as_str());
                                l
                            },
                            None => string_of("Secret content field"),
                        };
                        r.push(SecretContentMatch { line: line_no, pattern: label, text: text.clone() });
                        assert(match_views(r@) =~= before.push(
                            (line_no as nat, field_label(group(cv[k as int], 2)), text@),
                        ));
                    }
                },
                None => {},
            }
            assert(match_views(r@) =~= base2 + field_hits(line_no as nat, text@, cv.take(k + 1), ss));
        }
        assert(cv.take(nc as int) =~= cv);
        assert(match_views(r@) =~= secret_hits_upto(ls, ss, ps, (i + 1) as nat));
    }
    r
}

} // verus!
