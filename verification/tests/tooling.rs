use kply::checks::{
    contains_crate_name, has_non_placeholder_public_item, has_placeholder_marker,
    is_crate_name_character, markdown_has_heading_outside_code_block, starts_public_keyword,
    workflow_installs_toolchain,
};
use kply::fixtures::{
    fake_kubeconfig, fake_kubeconfig_with_context, normalize_absolute_paths,
    normalize_generated_ids, normalize_kubernetes_object_names, normalize_output,
    normalize_timestamps, EXIT_BLOCKING, EXIT_INTERNAL, EXIT_SUCCESS, EXIT_USAGE,
};
use kply::sanitize::{raw_string_hashes, strip_rust_comments_and_strings};

const PLACEHOLDER_SOURCE: &str = "\
//! Core domain placeholders for future Kply session primitives.

/// Placeholder marker for the future core session model.
#[derive(Debug, Clone, Copy, PartialEq, Eq)]
pub struct CorePlaceholder;
";

#[test]
fn detects_single_line_placeholder_marker() {
    assert!(has_placeholder_marker(PLACEHOLDER_SOURCE));
}

#[test]
fn requires_placeholder_marker_on_public_struct_line() {
    let source = "\
//! Core domain placeholders for future Kply session primitives.

pub struct
    CorePlaceholder;
";

    assert!(!has_placeholder_marker(source));
}

#[test]
fn ignores_scoped_visibility_items() {
    let source = "\
//! Core domain placeholders for future Kply session primitives.

pub struct CorePlaceholder;
pub(crate) struct InternalModel;
pub(super) fn helper() {}
";

    assert!(!has_non_placeholder_public_item(source));
}

#[test]
fn detects_extra_public_items_without_placeholder_name() {
    let source = "\
//! Core domain placeholders for future Kply session primitives.

pub struct CorePlaceholder;
pub enum SessionState {}
";

    assert!(has_non_placeholder_public_item(source));
}

#[test]
fn permits_public_placeholder_struct_only() {
    assert!(!has_non_placeholder_public_item(PLACEHOLDER_SOURCE));
}

#[test]
fn detects_multiline_public_item_header_as_non_placeholder() {
    let source = "\
//! Core domain placeholders for future Kply session primitives.

pub struct CorePlaceholder;
pub fn
    create_session() {}
";

    assert!(has_non_placeholder_public_item(source));
}

#[test]
fn matches_crate_names_with_boundaries() {
    assert!(contains_crate_name(
        "`kply-core`: domain model",
        "kply-core"
    ));
    assert!(!contains_crate_name(
        "`kply-core-extra`: separate crate",
        "kply-core"
    ));
    assert!(!contains_crate_name(
        "`my-kply-core`: separate crate",
        "kply-core"
    ));
}

#[test]
fn matches_workflow_toolchain_key_with_whitespace() {
    let workflow = "      toolchain: 1.95.0\n";

    assert!(workflow_installs_toolchain(workflow, "1.95.0"));
}

#[test]
fn rejects_workflow_toolchain_mentions_outside_key() {
    let workflow = "name: toolchain: 1.95.0\n";

    assert!(!workflow_installs_toolchain(workflow, "1.95.0"));
}

#[test]
fn matches_crate_names_at_later_occurrences() {
    assert!(contains_crate_name("my-kply-core and kply-core", "kply-core"));
    assert!(!contains_crate_name("", "kply-core"));
    assert!(contains_crate_name("kply-core", "kply-core"));
}

#[test]
fn classifies_crate_name_characters() {
    assert!(is_crate_name_character(Some('a')));
    assert!(is_crate_name_character(Some('Z')));
    assert!(is_crate_name_character(Some('7')));
    assert!(is_crate_name_character(Some('-')));
    assert!(is_crate_name_character(Some('_')));
    assert!(!is_crate_name_character(Some('`')));
    assert!(!is_crate_name_character(Some(' ')));
    assert!(!is_crate_name_character(None));
}

#[test]
fn detects_public_keywords_at_line_start() {
    assert!(starts_public_keyword("pub struct Foo;", "pub struct"));
    assert!(starts_public_keyword("pub fn", "pub fn"));
    assert!(!starts_public_keyword("pub(crate) struct Foo;", "pub struct"));
    assert!(!starts_public_keyword("pub structure", "pub struct"));
}

#[test]
fn finds_markdown_headings_outside_code_blocks() {
    let readme = "# Kply\n\n## Roadmap\n\nSee docs.\n";
    assert!(markdown_has_heading_outside_code_block(readme, "## Roadmap"));

    let fenced = "# Kply\n\n```\n## Roadmap\n```\n";
    assert!(!markdown_has_heading_outside_code_block(fenced, "## Roadmap"));

    let concatenated = "# Kply\n\n## RoadmapNotes\n";
    assert!(!markdown_has_heading_outside_code_block(concatenated, "## Roadmap"));

    let deeper = "### Roadmap\n";
    assert!(!markdown_has_heading_outside_code_block(deeper, "## Roadmap"));
}

#[test]
fn strips_line_comments_and_keeps_line_structure() {
    assert_eq!(
        strip_rust_comments_and_strings("let a = 1; // comment\nlet b = 2;\n"),
        vec!["let a = 1; ", "let b = 2;", ""]
    );
    assert_eq!(strip_rust_comments_and_strings(""), Vec::<String>::new());
    assert_eq!(strip_rust_comments_and_strings("abc"), vec!["abc"]);
    assert_eq!(strip_rust_comments_and_strings("a\n"), vec!["a", ""]);
}

#[test]
fn blanks_block_comments_across_lines() {
    assert_eq!(
        strip_rust_comments_and_strings("x /* a\nb */ y"),
        vec!["x     ", "     y"]
    );
}

#[test]
fn blanks_string_literals_and_escapes() {
    assert_eq!(
        strip_rust_comments_and_strings("let s = \"secret.data\";"),
        vec!["let s =              ;"]
    );
    assert_eq!(
        strip_rust_comments_and_strings("s = \"a\\\"b\" + t"),
        vec!["s =       + t"]
    );
}

#[test]
fn blanks_raw_strings_across_lines() {
    assert_eq!(
        strip_rust_comments_and_strings("let r = r#\"\nsecret\n\"#;\nz"),
        vec!["let r =    ", "      ", "  ;", "z"]
    );
}

#[test]
fn blanks_char_literals_and_lifetimes() {
    assert_eq!(
        strip_rust_comments_and_strings("let q = '\\''; let c = 'x'; fn f<'a>(v: &'a str) {}"),
        vec!["let q =     ; let c =    ; fn f<  >(v: &   str) {}"]
    );
    assert_eq!(strip_rust_comments_and_strings("'ab"), vec!["   "]);
}

#[test]
fn counts_raw_string_hashes() {
    let chars: Vec<char> = "r##\"x\"##".chars().collect();
    assert_eq!(raw_string_hashes(&chars, 0), Some(2));
    let plain: Vec<char> = "r\"x\"".chars().collect();
    assert_eq!(raw_string_hashes(&plain, 0), Some(0));
    let ident: Vec<char> = "rx".chars().collect();
    assert_eq!(raw_string_hashes(&ident, 0), None);
    assert_eq!(raw_string_hashes(&ident, 5), None);
}

#[test]
fn creates_fake_kubeconfig_contents() {
    let kubeconfig = fake_kubeconfig_with_context("cluster-a", "user-a", "context-a");

    assert!(kubeconfig.contains("server: https://127.0.0.1:6443"));
    assert!(kubeconfig.contains("current-context: context-a"));
    assert!(fake_kubeconfig().contains("current-context: kply-test-context"));
}

#[test]
fn fake_kubeconfig_names_cluster_user_and_token() {
    let kubeconfig = fake_kubeconfig();
    assert!(kubeconfig.contains("kind: Config"));
    assert!(kubeconfig.contains("token: fake-token"));
    assert!(kubeconfig.contains("  - name: kply-test\n"));
    assert!(kubeconfig.contains("      user: kply-test-user\n"));
}

#[test]
fn normalizes_unstable_values() {
    let output = normalize_output(
        "/Users/example/project 2026-05-23T22:00:00Z 123e4567-e89b-12d3-a456-426614174000 kply-api-abcdef1234",
    );

    assert_eq!(
        output,
        "<absolute-path> <timestamp> <generated-id> kply-<object-name>"
    );
}

#[test]
fn normalizes_values_individually() {
    assert_eq!(
        normalize_timestamps("created=2026-05-23T22:00:00.123Z"),
        "created=<timestamp>"
    );
    assert_eq!(
        normalize_generated_ids("id=123e4567-e89b-12d3-a456-426614174000"),
        "id=<generated-id>"
    );
    assert_eq!(
        normalize_kubernetes_object_names("name=kply-backend-abcdef12"),
        "name=kply-<object-name>"
    );
    assert_eq!(
        normalize_absolute_paths("path=/tmp/kply/demo"),
        "path=<absolute-path>"
    );
    assert_eq!(
        normalize_absolute_paths("path=/home/runner/work/kply"),
        "path=<absolute-path>"
    );
    assert_eq!(
        normalize_absolute_paths("path=/workspace/kply"),
        "path=<absolute-path>"
    );
}

#[test]
fn leaves_stable_values_unchanged() {
    assert_eq!(normalize_output("status=ready"), "status=ready");
    assert_eq!(normalize_absolute_paths("relative/tmp/path"), "relative/tmp/path");
}

#[test]
fn exposes_exit_codes() {
    assert_eq!(EXIT_SUCCESS, 0);
    assert_eq!(EXIT_BLOCKING, 1);
    assert_eq!(EXIT_USAGE, 2);
    assert_eq!(EXIT_INTERNAL, 3);
}

#[test]
fn keeps_text_without_comment_or_literal_openers() {
    assert_eq!(
        strip_rust_comments_and_strings("let a = b * c;\nfn f() {}\n"),
        vec!["let a = b * c;", "fn f() {}", ""]
    );
    assert_eq!(strip_rust_comments_and_strings("x\n\ny"), vec!["x", "", "y"]);
}
