use kalamarnica::cmd::auth_status::{format_context_entry, format_unauthenticated_hint};
use kalamarnica::apply_context::ApplyContext;
use kalamarnica::cmd::list::{active_marker_text, format_context_line};
use kalamarnica::gl_config::strip_glab_null_tags;
use kalamarnica::test_utils::{sample_context, sample_gitlab_context};
use kalamarnica::validate_name::validate_name;
use kalamarnica::vcs::Vcs;

#[test]
fn test_empty_name_fails() {
    let error = validate_name("").unwrap_err();
    assert_eq!(error.message, "context name cannot be empty");
}

#[test]
fn test_alphanumeric_name_succeeds() {
    let name = "work123";
    let result = validate_name(name).unwrap();
    assert_eq!(result, name);
}

#[test]
fn test_name_with_hyphens() {
    let name = "my-work";
    let result = validate_name(name).unwrap();
    assert_eq!(result, name);
}

#[test]
fn test_name_with_underscores() {
    let name = "my_work";
    let result = validate_name(name).unwrap();
    assert_eq!(result, name);
}

#[test]
fn test_name_with_mixed_valid_chars() {
    let name = "my-work_123";
    let result = validate_name(name).unwrap();
    assert_eq!(result, name);
}

#[test]
fn test_name_with_spaces_fails() {
    let error = validate_name("my work").unwrap_err();
    assert_eq!(
        error.message,
        "context name must contain only alphanumeric characters, hyphens, and underscores"
    );
}

#[test]
fn test_name_with_dots_fails() {
    let error = validate_name("my.work").unwrap_err();
    assert_eq!(
        error.message,
        "context name must contain only alphanumeric characters, hyphens, and underscores"
    );
}

#[test]
fn test_name_with_slashes_fails() {
    let error = validate_name("my/work").unwrap_err();
    assert_eq!(
        error.message,
        "context name must contain only alphanumeric characters, hyphens, and underscores"
    );
}

#[test]
fn test_create_context_with_invalid_name_fails() {
    let context_name = "invalid name!";
    let error = validate_name(context_name).unwrap_err();
    assert_eq!(
        error.message,
        "context name must contain only alphanumeric characters, hyphens, and underscores"
    );
}

#[test]
fn test_format_context_line_active() {
    let context = sample_context();
    let line = format_context_line("work", " *", &context, "github");
    assert_eq!(line, "work * (testuser@github.com, ssh, github)");
}

#[test]
fn test_format_context_line_inactive() {
    let context = sample_context();
    let line = format_context_line("work", "", &context, "github");
    assert_eq!(line, "work (testuser@github.com, ssh, github)");
}

#[test]
fn test_format_context_entry_verified() {
    let context = sample_context();
    let entry = format_context_entry("work", " *", &context, "stored", "verified");
    assert_eq!(
        entry,
        "work *\n  Host: github.com\n  User: testuser\n  Transport: ssh\n  Token: stored\n  Auth: verified"
    );
}

#[test]
fn test_format_context_entry_unauthenticated() {
    let context = sample_context();
    let hint = format_unauthenticated_hint(Vcs::Github, "work", "github.com", "testuser");
    let entry = format_context_entry("work", "", &context, "none (using shared keyring)", &hint);
    assert_eq!(
        entry,
        "work\n  Host: github.com\n  User: testuser\n  Transport: ssh\n  Token: none (using shared keyring)\n  Auth: not authenticated\n    Run: gh auth login --hostname github.com --user testuser --scopes repo,read:org"
    );
}

#[test]
fn test_format_unauthenticated_hint_github() {
    let hint = format_unauthenticated_hint(Vcs::Github, "work", "github.com", "testuser");
    assert_eq!(
        hint,
        "not authenticated\n    Run: gh auth login --hostname github.com --user testuser --scopes repo,read:org"
    );
}

#[test]
fn test_format_unauthenticated_hint_gitlab() {
    let context = sample_gitlab_context();
    let hint = format_unauthenticated_hint(Vcs::Gitlab, "work", &context.hostname, &context.user);
    assert_eq!(
        hint,
        "not authenticated\n    Run: kalamarnica set-token --name work --token <your-personal-access-token>"
    );
}

#[test]
fn test_strip_glab_null_tags_removes_null_prefix_from_token() {
    let configuration_content_with_null_tag = "token: !!null glpat-secret123\nuser: test_user\n";
    let sanitized_configuration_content = strip_glab_null_tags(configuration_content_with_null_tag);
    assert_eq!(sanitized_configuration_content, "token: glpat-secret123\nuser: test_user\n");
}

#[test]
fn test_strip_glab_null_tags_leaves_plain_token_unchanged() {
    let configuration_content = "token: glpat-secret123\nuser: test_user\n";
    let sanitized_configuration_content = strip_glab_null_tags(configuration_content);
    assert_eq!(sanitized_configuration_content, "token: glpat-secret123\nuser: test_user\n");
}

#[test]
fn test_strip_glab_null_tags_handles_null_without_value() {
    let configuration_content_with_null_tag = "token: !!null \nuser: test_user\n";
    let sanitized_configuration_content = strip_glab_null_tags(configuration_content_with_null_tag);
    assert_eq!(sanitized_configuration_content, "token: \nuser: test_user\n");
}

#[test]
fn only_the_active_context_is_marked() {
    let active = Some(ApplyContext::new("work".to_owned(), Vcs::Gitlab));
    assert_eq!(active_marker_text(&active, "work", Vcs::Gitlab), " *");
    assert_eq!(active_marker_text(&active, "work", Vcs::Github), "");
    assert_eq!(active_marker_text(&active, "home", Vcs::Gitlab), "");
    assert_eq!(active_marker_text(&None, "work", Vcs::Gitlab), "");
}

#[test]
fn alphanumeric_names_in_any_script_are_accepted() {
    assert_eq!(validate_name("café").unwrap(), "café");
    assert_eq!(validate_name("工作-2").unwrap(), "工作-2");
    assert_eq!(validate_name("Ünïcode_٣").unwrap(), "Ünïcode_٣");
    assert!(validate_name("café/x").is_err());
    assert!(validate_name("a✓").is_err());
}
