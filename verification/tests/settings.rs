use kply::json::JsonValue;
use kply::policy::{
    deny_config_issues, license_issues, release_planning_issues, toolchain_pin_issues,
    LicenseFacts,
};
use kply::settings::{
    crate_license_fact, deny_config_facts, release_planning_facts, toolchain_facts,
    workflow_run_commands, workspace_license, workspace_members,
};

const APACHE_LICENSE_SOURCE: &str = "\
Apache License
Version 2.0, January 2004
http://www.apache.org/licenses/
";
const NOTICE_SOURCE: &str = "\
Kply
Copyright 2026 Kubeply

This product includes software developed by Kubeply.
";
const STRICT_DENY_CONFIG: &str = r#"
[advisories]
yanked = "deny"
ignore = []

[licenses]
allow = [
  "Apache-2.0",
  "MIT",
  "Unicode-3.0",
]
confidence-threshold = 0.8

[bans]
multiple-versions = "deny"
wildcards = "allow"
highlight = "all"
"#;
const DIST_CONFIG: &str = r#"
[dist]
cargo-dist-version = "0.32.0"
pr-run-mode = "plan"
"#;
const RELEASE_PLAN_WORKFLOW: &str = r#"
name: release

on:
  pull_request:

jobs:
  dist-plan:
    steps:
      - name: Plan release
        run: dist plan
"#;

fn json(value: serde_json::Value) -> JsonValue {
    match value {
        serde_json::Value::Null => JsonValue::Null,
        serde_json::Value::Bool(b) => JsonValue::Bool(b),
        serde_json::Value::Number(n) => JsonValue::Number { integer: n.as_i64() },
        serde_json::Value::String(s) => JsonValue::String(s),
        serde_json::Value::Array(items) => JsonValue::Array(items.into_iter().map(json).collect()),
        serde_json::Value::Object(members) => {
            JsonValue::Object(members.into_iter().map(|(k, v)| (k, json(v))).collect())
        }
    }
}

fn toml_doc(source: &str) -> JsonValue {
    json(toml::from_str(source).expect("TOML should parse"))
}

fn yaml_doc(source: &str) -> JsonValue {
    json(serde_norway::from_str(source).expect("YAML should parse"))
}

fn deny_issues(source: &str) -> Vec<String> {
    deny_config_issues(&deny_config_facts(&toml_doc(source), true))
}

fn planning_issues(dist: &str, workflow: &str) -> Vec<String> {
    release_planning_issues(&release_planning_facts(&toml_doc(dist), &yaml_doc(workflow)))
}

fn toolchain_issues(toolchain: &str, workflow: &str) -> Vec<String> {
    let facts = toolchain_facts(
        "rust-toolchain.toml".to_owned(),
        &toml_doc(toolchain),
        ".github/workflows/ci.yml".to_owned(),
        workflow.to_owned(),
    );
    toolchain_pin_issues(&facts, "1.95.0")
}

fn license_file_issues(
    license: &str,
    notice: &str,
    manifest: &str,
    crate_manifests: &[(&str, &str)],
) -> Vec<String> {
    let facts = LicenseFacts {
        license_text: license.to_owned(),
        notice_text: notice.to_owned(),
        workspace_license: workspace_license(&toml_doc(manifest)),
        crate_manifests: crate_manifests
            .iter()
            .map(|(path, source)| crate_license_fact((*path).to_owned(), &toml_doc(source)))
            .collect(),
    };
    license_issues(&facts)
}

const WORKSPACE_LICENSE: &str = "\n[workspace.package]\nlicense = \"Apache-2.0\"\n";

fn inheriting_crates() -> Vec<(&'static str, &'static str)> {
    vec![
        (
            "crates/kply-cli/Cargo.toml",
            "[package]\nname = \"kply-cli\"\nlicense.workspace = true\n",
        ),
        (
            "crates/xtask/Cargo.toml",
            "[package]\nname = \"xtask\"\nlicense.workspace = true\n",
        ),
    ]
}

#[test]
fn accepts_strict_cargo_deny_config() {
    assert!(deny_issues(STRICT_DENY_CONFIG).is_empty());
}

#[test]
fn rejects_cargo_deny_warning_for_duplicate_versions() {
    let issues = deny_issues(
        &STRICT_DENY_CONFIG.replace("multiple-versions = \"deny\"", "multiple-versions = \"warn\""),
    );
    assert_eq!(issues, vec!["bans.multiple-versions must be deny"]);
}

#[test]
fn rejects_cargo_deny_license_allowlist_drift() {
    let issues = deny_issues(&STRICT_DENY_CONFIG.replace("\"MIT\",", "\"MIT\",\n  \"BSD-3-Clause\","));
    assert_eq!(
        issues,
        vec![r#"licenses.allow must be exactly {"Apache-2.0", "MIT", "Unicode-3.0"}"#]
    );
}

#[test]
fn rejects_cargo_deny_advisory_ignores() {
    let issues =
        deny_issues(&STRICT_DENY_CONFIG.replace("ignore = []", "ignore = [\"RUSTSEC-0000-0000\"]"));
    assert_eq!(issues, vec!["advisories.ignore must stay empty"]);
}

#[test]
fn missing_deny_sections_are_each_an_issue() {
    let facts = deny_config_facts(&toml_doc("[licenses]\nallow = \"MIT\"\n"), false);
    assert_eq!(facts.advisories_yanked, None);
    assert!(!facts.advisories_ignore_empty);
    assert!(facts.allowed_licenses.is_empty());
    assert_eq!(deny_config_issues(&facts).len(), 7);
}

#[test]
fn accepts_non_publishing_release_planning() {
    assert!(planning_issues(DIST_CONFIG, RELEASE_PLAN_WORKFLOW).is_empty());
}

#[test]
fn rejects_release_workflow_tag_publish_trigger() {
    let issues = planning_issues(
        DIST_CONFIG,
        "on:\n  push:\n    tags:\n      - \"v*\"\n  pull_request:\n\njobs:\n  plan:\n    steps:\n      - run: dist plan\n",
    );
    assert_eq!(
        issues,
        vec![
            "release workflow must not run on push",
            "release workflow must not run on tag pushes",
        ]
    );
}

#[test]
fn rejects_release_workflow_without_pull_request_trigger() {
    let issues = planning_issues(DIST_CONFIG, &RELEASE_PLAN_WORKFLOW.replace("  pull_request:", ""));
    assert!(issues.join("; ").contains("must run on pull_request"));
}

#[test]
fn rejects_release_workflow_publish_commands() {
    for command in ["dist build", "dist host", "dist publish"] {
        let issues = planning_issues(DIST_CONFIG, &RELEASE_PLAN_WORKFLOW.replace("dist plan", command));
        assert!(!issues.is_empty());
        assert!(issues.join("; ").contains(command));
    }
}

#[test]
fn rejects_release_workflow_without_dist_plan() {
    let issues = planning_issues(
        DIST_CONFIG,
        &RELEASE_PLAN_WORKFLOW.replace("dist plan", "cargo dist --help"),
    );
    assert!(issues.join("; ").contains("dist plan"));
}

#[test]
fn rejects_release_cargo_dist_version_drift() {
    let issues = planning_issues(
        &DIST_CONFIG.replace("cargo-dist-version = \"0.32.0\"", "cargo-dist-version = \"0.33.0\""),
        RELEASE_PLAN_WORKFLOW,
    );
    assert!(issues.join("; ").contains("cargo-dist-version"));
}

#[test]
fn rejects_release_planning_mode_drift() {
    let issues = planning_issues(
        &DIST_CONFIG.replace("pr-run-mode = \"plan\"", "pr-run-mode = \"build\""),
        RELEASE_PLAN_WORKFLOW,
    );
    assert_eq!(issues, vec!["dist.pr-run-mode must stay plan"]);
}

#[test]
fn collects_run_commands_job_by_job_in_document_order() {
    let workflow = yaml_doc(
        "jobs:\n  first:\n    steps:\n      - run: echo one\n      - uses: actions/checkout@v4\n      - run: echo two\n  second:\n    steps:\n      - run: echo three\n  third: not-a-job\n",
    );
    assert_eq!(workflow_run_commands(&workflow), vec!["echo one", "echo two", "echo three"]);
    assert!(workflow_run_commands(&yaml_doc("name: no jobs\n")).is_empty());
}

#[test]
fn accepts_pinned_rust_toolchain_and_matching_ci() {
    let issues = toolchain_issues(
        "\n[toolchain]\nchannel = \"1.95.0\"\ncomponents = [\"clippy\", \"rustfmt\"]\n",
        "toolchain: 1.95.0\n",
    );
    assert!(issues.is_empty());
}

#[test]
fn rejects_unpinned_rust_toolchain_channel() {
    let issues = toolchain_issues(
        "\n[toolchain]\nchannel = \"stable\"\ncomponents = [\"clippy\", \"rustfmt\"]\n",
        "toolchain: 1.95.0\n",
    );
    assert_eq!(issues, vec!["rust-toolchain.toml must pin channel = \"1.95.0\""]);
}

#[test]
fn rejects_rust_toolchain_missing_required_components() {
    let issues = toolchain_issues(
        "\n[toolchain]\nchannel = \"1.95.0\"\ncomponents = [\"rustfmt\"]\n",
        "toolchain: 1.95.0\n",
    );
    assert_eq!(issues, vec!["rust-toolchain.toml must include Rust component clippy"]);
}

#[test]
fn rejects_ci_toolchain_drift() {
    let issues = toolchain_issues(
        "\n[toolchain]\nchannel = \"1.95.0\"\ncomponents = [\"clippy\", \"rustfmt\"]\n",
        "toolchain: stable\n",
    );
    assert_eq!(issues, vec![".github/workflows/ci.yml must install Rust toolchain 1.95.0"]);
}

#[test]
fn accepts_apache_license_files_and_workspace_license_inheritance() {
    let issues = license_file_issues(
        APACHE_LICENSE_SOURCE,
        NOTICE_SOURCE,
        WORKSPACE_LICENSE,
        &inheriting_crates(),
    );
    assert!(issues.is_empty());
}

#[test]
fn rejects_missing_apache_license_phrase() {
    let issues =
        license_file_issues("Apache License\n", NOTICE_SOURCE, WORKSPACE_LICENSE, &inheriting_crates());
    assert_eq!(
        issues,
        vec![
            "LICENSE is missing Apache-2.0 phrase: Version 2.0, January 2004",
            "LICENSE is missing Apache-2.0 phrase: http://www.apache.org/licenses/",
        ]
    );
}

#[test]
fn rejects_missing_notice_phrase() {
    let issues = license_file_issues(
        APACHE_LICENSE_SOURCE,
        "Kply\n",
        WORKSPACE_LICENSE,
        &inheriting_crates(),
    );
    assert_eq!(
        issues,
        vec![
            "NOTICE is missing required phrase: Copyright 2026 Kubeply",
            "NOTICE is missing required phrase: software developed by Kubeply",
        ]
    );
}

#[test]
fn rejects_workspace_manifest_without_apache_license() {
    let issues = license_file_issues(
        APACHE_LICENSE_SOURCE,
        NOTICE_SOURCE,
        "\n[workspace.package]\nlicense = \"MIT\"\n",
        &inheriting_crates(),
    );
    assert_eq!(issues, vec!["workspace package license must be Apache-2.0"]);
}

#[test]
fn rejects_crate_manifest_without_workspace_license_inheritance() {
    let issues = license_file_issues(
        APACHE_LICENSE_SOURCE,
        NOTICE_SOURCE,
        WORKSPACE_LICENSE,
        &[
            ("crates/kply-cli/Cargo.toml", "[package]\nname = \"kply-cli\"\n"),
            (
                "crates/xtask/Cargo.toml",
                "[package]\nname = \"xtask\"\nlicense.workspace = true\n",
            ),
        ],
    );
    assert_eq!(
        issues,
        vec!["crates/kply-cli/Cargo.toml must inherit license.workspace = true"]
    );
}

#[test]
fn collects_workspace_members_from_manifest() {
    let manifest = r#"
[workspace]
members = [
    "crates/kply-cli",
    "crates/xtask",
]
resolver = "3"
"#;

    assert_eq!(
        workspace_members(&toml_doc(manifest)).expect("workspace members should parse"),
        vec!["crates/kply-cli", "crates/xtask"]
    );
}

#[test]
fn collects_inline_workspace_members_from_manifest() {
    let manifest = r#"
[workspace]
members = ["crates/kply-cli", "crates/xtask"]
"#;

    assert_eq!(
        workspace_members(&toml_doc(manifest)).expect("workspace members should parse"),
        vec!["crates/kply-cli", "crates/xtask"]
    );
}

#[test]
fn refuses_workspace_members_that_are_not_strings() {
    assert!(workspace_members(&toml_doc("[workspace]\nmembers = [\"a\", 1]\n")).is_none());
    assert_eq!(
        workspace_members(&toml_doc("[package]\nname = \"x\"\n")),
        Some(Vec::new())
    );
}
