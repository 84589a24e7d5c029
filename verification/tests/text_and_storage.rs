use kalamarnica::cmd::binding::{binding_content, binding_path, repo_root};
use kalamarnica::gl_config::strip_glab_null_tags;
use kalamarnica::names::{DirEntryInfo, context_names, name_precedes};
use kalamarnica::path::join;
use kalamarnica::storage::{ContextList, Storage};
use kalamarnica::text::{char_is_whitespace, contains, is_blank, same_text, trim, trim_trailing_slashes};
use kalamarnica::transport::Transport;
use kalamarnica::vcs::Vcs;

fn entry(name: &str, is_context: bool) -> DirEntryInfo {
    DirEntryInfo { name: name.to_owned(), is_context }
}

#[test]
fn vcs_names_parse_in_any_case() {
    assert_eq!(Vcs::parse("github").unwrap(), Vcs::Github);
    assert_eq!(Vcs::parse("GitHub").unwrap(), Vcs::Github);
    assert_eq!(Vcs::parse("GITLAB").unwrap(), Vcs::Gitlab);
    assert_eq!(Vcs::Github.to_string(), "github");
    assert_eq!(Vcs::Gitlab.name(), "gitlab");
}

#[test]
fn unknown_vcs_is_refused_in_lowercase() {
    let error = Vcs::parse("BitBucket").unwrap_err();
    assert_eq!(error.message, "invalid vcs: bitbucket (expected 'github' or 'gitlab')");
}

#[test]
fn transports_parse_and_show() {
    assert_eq!(Transport::parse("SSH").unwrap(), Transport::Ssh);
    assert_eq!(Transport::parse("https").unwrap(), Transport::Https);
    assert_eq!(Transport::Https.to_string(), "https");
    let error = Transport::parse("Git").unwrap_err();
    assert_eq!(error.message, "invalid transport: git (expected 'ssh' or 'https')");
}

#[test]
fn paths_join_like_unix_paths() {
    assert_eq!(join("/a", "b"), "/a/b");
    assert_eq!(join("/a/", "b"), "/a/b");
    assert_eq!(join("", "b"), "b");
    assert_eq!(join("/a", "/etc"), "/etc");
}

#[test]
fn storage_layout_keeps_each_context_apart() {
    let storage = Storage::with_base_dir("/cfg/kalamarnica".to_owned());
    assert_eq!(storage.context_dir(Vcs::Github, "work"), "/cfg/kalamarnica/github/work");
    assert_eq!(storage.configuration_path(Vcs::Gitlab, "work"), "/cfg/kalamarnica/gitlab/work/configuration.toml");
    assert_eq!(storage.token_path(Vcs::Github, "work"), "/cfg/kalamarnica/github/work/token");
    assert_eq!(storage.active_path(), "/cfg/kalamarnica/active");
    assert_eq!(storage.vcs_dir(Vcs::Gitlab), "/cfg/kalamarnica/gitlab");
    assert_ne!(storage.configuration_path(Vcs::Github, "work"), storage.configuration_path(Vcs::Gitlab, "work"));
    let storage = Storage::in_config_dir("/home/me/.config");
    assert_eq!(storage.base_dir(), "/home/me/.config/kalamarnica");
}

#[test]
fn context_names_are_filtered_and_sorted_by_bytes() {
    let names = context_names(vec![
        entry("work", true),
        entry("Zeta", true),
        entry("junk", false),
        entry("alpha", true),
        entry("ärger", true),
    ]);
    assert_eq!(names, vec!["Zeta", "alpha", "work", "ärger"]);
}

#[test]
fn context_list_groups_by_vcs() {
    let list = ContextList::from_entries(
        vec![entry("work", true), entry("personal", true)],
        vec![entry("enterprise", true)],
    );
    assert_eq!(list.names(Vcs::Github), &vec!["personal".to_owned(), "work".to_owned()]);
    assert_eq!(list.names(Vcs::Gitlab), &vec!["enterprise".to_owned()]);
    assert!(!list.is_empty());
    assert!(ContextList::from_entries(vec![], vec![entry("x", false)]).is_empty());
}

#[test]
fn name_order_is_byte_order() {
    assert!(name_precedes("a", "b"));
    assert!(name_precedes("ab", "abc"));
    assert!(!name_precedes("b", "a"));
    assert!(name_precedes("same", "same"));
}

#[test]
fn trimming_and_blank_text() {
    assert_eq!(trim("  token\n"), "token");
    assert_eq!(trim("\u{3000}x\u{a0}"), "x");
    assert_eq!(trim(""), "");
    assert!(is_blank(" \t\n"));
    assert!(is_blank(""));
    assert!(!is_blank(" x "));
}

#[test]
fn text_helpers() {
    assert!(contains("Logged in to h account u", "account u"));
    assert!(!contains("abc", "abd"));
    assert!(contains("abc", ""));
    assert!(same_text("x", "x"));
    assert!(!same_text("x", "y"));
    assert_eq!(trim_trailing_slashes("/repo//"), "/repo");
}

#[test]
fn binding_file_names_the_context() {
    assert_eq!(repo_root("/home/me/repo/"), "/home/me/repo");
    assert_eq!(binding_path("/home/me/repo"), "/home/me/repo/.vcs_context");
    assert_eq!(binding_content("work", Vcs::Gitlab), "name = \"work\"\nvcs = \"gitlab\"");
}

#[test]
fn stripping_tags_keeps_other_text() {
    assert_eq!(strip_glab_null_tags("a !!null b !!null c"), "a b c");
    assert_eq!(strip_glab_null_tags("!!nul !!null"), "!!nul !!null");
    assert_eq!(strip_glab_null_tags(""), "");
}

#[test]
fn listing_walks_github_then_gitlab_contexts_once() {
    let list = ContextList::from_entries(
        vec![entry("work", true), entry("personal", true)],
        vec![entry("enterprise", true)],
    );
    let first = list.first_position();
    assert_eq!(first, Some((Vcs::Github, 0)));
    assert_eq!(list.name_at(Vcs::Github, 0), "personal");
    let second = list.next_position(Vcs::Github, 0);
    assert_eq!(second, Some((Vcs::Github, 1)));
    assert_eq!(list.name_at(Vcs::Github, 1), "work");
    let third = list.next_position(Vcs::Github, 1);
    assert_eq!(third, Some((Vcs::Gitlab, 0)));
    assert_eq!(list.name_at(Vcs::Gitlab, 0), "enterprise");
    assert_eq!(list.next_position(Vcs::Gitlab, 0), None);
    assert!(!list.has_position(Vcs::Gitlab, 1));
    let only_gitlab = ContextList::from_entries(vec![], vec![entry("ops", true)]);
    assert_eq!(only_gitlab.first_position(), Some((Vcs::Gitlab, 0)));
    assert_eq!(ContextList::from_entries(vec![], vec![]).first_position(), None);
}

#[test]
fn shown_names_read_back() {
    for vcs in [Vcs::Github, Vcs::Gitlab] {
        assert_eq!(Vcs::parse(&vcs.to_string()).unwrap(), vcs);
        assert_eq!(Vcs::from_lowercase(vcs.name()).unwrap(), vcs);
    }
    for transport in [Transport::Ssh, Transport::Https] {
        assert_eq!(Transport::parse(&transport.to_string()).unwrap(), transport);
    }
    assert_ne!(Vcs::Github.name(), Vcs::Gitlab.name());
}

#[test]
fn blank_text_trims_to_nothing() {
    for text in ["", " ", "\t\n\r", "\u{2003}\u{3000}"] {
        assert!(is_blank(text));
        assert_eq!(trim(text), "");
    }
    for text in ["x", " x", "x\n", " a b "] {
        assert!(!is_blank(text));
        assert!(!trim(text).is_empty());
    }
}

#[test]
fn white_space_is_the_unicode_white_space_property() {
    for code in 0u32..=0x10FFFF {
        if let Some(c) = char::from_u32(code) {
            assert_eq!(char_is_whitespace(c), c.is_whitespace(), "U+{code:04X}");
        }
    }
}

#[test]
fn distinct_context_names_are_listed_strictly_ascending() {
    let names = context_names(vec![
        entry("b", true),
        entry("a", false),
        entry("C", true),
        entry("a", true),
        entry("ab", true),
    ]);
    assert_eq!(names, vec!["C", "a", "ab", "b"]);
    for pair in names.windows(2) {
        assert!(pair[0] < pair[1]);
    }
}
