//! Shared helpers for integration tests and fixtures: exit codes, fake
//! kubeconfig contents, fixture paths, and normalization of unstable values
//! in command output.

use vstd::prelude::*;
use crate::pattern::{replace_matches, replaced_or_same};
use crate::text::{push_str, string_of};

verus! {

/// Exit code for successful commands.
pub const EXIT_SUCCESS: i32 = 0;
/// Exit code for blocking session or check results.
pub const EXIT_BLOCKING: i32 = 1;
/// Exit code for usage, config, auth, or input errors.
pub const EXIT_USAGE: i32 = 2;
/// Exit code for unexpected internal errors.
pub const EXIT_INTERNAL: i32 = 3;

/// RFC 3339 UTC timestamps.
pub const TIMESTAMP_PATTERN: &'static str = r"\b\d{4}-\d{2}-\d{2}T\d{2}:\d{2}:\d{2}(?:\.\d+)?Z\b";
/// UUID-style generated identifiers.
pub const GENERATED_ID_PATTERN: &'static str = r"\b[0-9a-f]{8}-[0-9a-f]{4}-[0-9a-f]{4}-[0-9a-f]{4}-[0-9a-f]{12}\b";
/// Generated Kply Kubernetes object names.
pub const OBJECT_NAME_PATTERN: &'static str = r"\bkply-[a-z0-9]([-a-z0-9]*[a-z0-9])?-[0-9a-f]{8,}\b";
/// Absolute local filesystem paths, with what precedes them.
pub const ABSOLUTE_PATH_PATTERN: &'static str = r#"(?m)(^|[\s"=])/(?:Users|home|private|tmp|var|workspace)/[^\s"]+"#;

/// Replace the matches of a pattern, keeping the text when the pattern does
/// not compile.
fn replace_or_keep(pattern: &str, text: &str, replacement: &str) -> (r: String)
    ensures
        r@ == replaced_or_same(pattern@, text@, replacement@),
{
    match replace_matches(pattern, text, replacement) {
        Some(s) => s,
        None => string_of(text),
    }
}

/// Normalize RFC 3339 UTC timestamps to `<timestamp>`.
pub fn normalize_timestamps(output: &str) -> (r: String)
    ensures
        r@ == replaced_or_same(TIMESTAMP_PATTERN@, output@, "<timestamp>"@),
{
    replace_or_keep(TIMESTAMP_PATTERN, output, "<timestamp>")
}

/// Normalize generated UUID-style identifiers to `<generated-id>`.
pub fn normalize_generated_ids(output: &str) -> (r: String)
    ensures
        r@ == replaced_or_same(GENERATED_ID_PATTERN@, output@, "<generated-id>"@),
{
    replace_or_keep(GENERATED_ID_PATTERN, output, "<generated-id>")
}

/// Normalize generated Kply Kubernetes object names to `kply-<object-name>`.
pub fn normalize_kubernetes_object_names(output: &str) -> (r: String)
    ensures
        r@ == replaced_or_same(OBJECT_NAME_PATTERN@, output@, "kply-<object-name>"@),
{
    replace_or_keep(OBJECT_NAME_PATTERN, output, "kply-<object-name>")
}

/// Normalize absolute local filesystem paths to `<absolute-path>`, keeping
/// what precedes each path.
pub fn normalize_absolute_paths(output: &str) -> (r: String)
    ensures
        r@ == replaced_or_same(ABSOLUTE_PATH_PATTERN@, output@, "$1<absolute-path>"@),
{
    replace_or_keep(ABSOLUTE_PATH_PATTERN, output, "$1<absolute-path>")
}

/// Normalize values that commonly make snapshots unstable: timestamps, then
/// generated identifiers, then object names, then absolute paths.
pub fn normalize_output(output: &str) -> (r: String)
    ensures
        r@ == replaced_or_same(
            ABSOLUTE_PATH_PATTERN@,
            replaced_or_same(
                OBJECT_NAME_PATTERN@,
                replaced_or_same(
                    GENERATED_ID_PATTERN@,
                    replaced_or_same(TIMESTAMP_PATTERN@, output@, "<timestamp>"@),
                    "<generated-id>"@,
                ),
                "kply-<object-name>"@,
            ),
            "$1<absolute-path>"@,
        ),
{
    let a = normalize_timestamps(output);
    let b = normalize_generated_ids(a.as_str());
    let c = normalize_kubernetes_object_names(b.as_str());
    normalize_absolute_paths(c.as_str())
}

/// Fake kubeconfig text with explicit cluster, user, and context names.
pub open spec fn kubeconfig_text(cluster: Seq<char>, user: Seq<char>, context: Seq<char>) -> Seq<char> {
    "apiVersion: v1\nkind: Config\nclusters:\n  - name: "@ + cluster
        + "\n    cluster:\n      server: https://127.0.0.1:6443\nusers:\n  - name: "@ + user
        + "\n    user:\n      token: fake-token\ncontexts:\n  - name: "@ + context
        + "\n    context:\n      cluster: "@ + cluster + "\n      user: "@ + user
        + "\ncurrent-context: "@ + context + "\n"@
}

/// Return fake kubeconfig contents with explicit cluster, user, and context names.
pub fn fake_kubeconfig_with_context(cluster: &str, user: &str, context: &str) -> (r: String)
    ensures
        r@ == kubeconfig_text(cluster@, user@, context@),
{
    let mut r = string_of("apiVersion: v1\nkind: Config\nclusters:\n  - name: ");
    push_str(&mut r, cluster);
    push_str(&mut r, "\n    cluster:\n      server: https://127.0.0.1:6443\nusers:\n  - name: ");
    push_str(&mut r, user);
    push_str(&mut r, "\n    user:\n      token: fake-token\ncontexts:\n  - name: ");
    push_str(&mut r, context);
    push_str(&mut r, "\n    context:\n      cluster: ");
    push_str(&mut r, cluster);
    push_str(&mut r, "\n      user: ");
    push_str(&mut r, user);
    push_str(&mut r, "\ncurrent-context: ");
    push_str(&mut r, context);
    push_str(&mut r, "\n");
    r
}

/// Return deterministic fake kubeconfig contents for tests.
pub fn fake_kubeconfig() -> (r: String)
    ensures
        r@ == kubeconfig_text("kply-test"@, "kply-test-user"@, "kply-test-context"@),
{
    fake_kubeconfig_with_context("kply-test", "kply-test-user", "kply-test-context")
}

} // verus!
