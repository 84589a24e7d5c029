use kalamarnica::clients::{GhClient, GlClient, token_key};
use kalamarnica::gl_config::{extract_hosts_section, merge_hosts_into_configuration, set_default_vcs_host};
use kalamarnica::hosts::{api_token, auth_status, auth_switch, ensure_host_entry, ensure_users_map, write_host_credentials};
use kalamarnica::vcs::Vcs;
use kalamarnica::yaml::{string_value, YamlMapping, YamlValue};

fn text_of(value: Option<&YamlValue>) -> Option<String> {
    value.and_then(|v| v.as_text()).cloned()
}

#[test]
fn test_host_entry_creates_new_entry() {
    let mut config = YamlMapping::new();
    let entry = ensure_host_entry(&mut config, "github.com").unwrap();
    assert!(entry.is_empty());
    assert!(config.contains_key("github.com"));
}

#[test]
fn test_host_entry_returns_existing_entry() {
    let mut config = YamlMapping::new();
    let mut existing = YamlMapping::new();
    existing.insert("user", string_value("octocat"));
    config.insert("github.com", YamlValue::Mapping(existing));
    let entry = ensure_host_entry(&mut config, "github.com").unwrap();
    assert_eq!(text_of(entry.get("user")).as_deref(), Some("octocat"));
}

#[test]
fn test_host_entry_does_not_overwrite_existing() {
    let mut config = YamlMapping::new();
    let mut existing = YamlMapping::new();
    existing.insert("user", string_value("octocat"));
    existing.insert("oauth_token", string_value("ghp_abc"));
    config.insert("github.com", YamlValue::Mapping(existing));
    let entry = ensure_host_entry(&mut config, "github.com").unwrap();
    assert_eq!(entry.len(), 2);
}

#[test]
fn test_host_entry_creates_entry_for_gitlab_hostname() {
    let mut config = YamlMapping::new();
    let entry = ensure_host_entry(&mut config, "gitlab.com").unwrap();
    assert!(entry.is_empty());
    assert!(config.contains_key("gitlab.com"));
}

#[test]
fn host_entry_that_is_not_a_mapping_is_refused() {
    let mut config = YamlMapping::new();
    config.insert("github.com", string_value("oops"));
    let error = ensure_host_entry(&mut config, "github.com").unwrap_err();
    assert_eq!(error.message, "host entry is not a mapping");
    assert_eq!(text_of(config.get("github.com")).as_deref(), Some("oops"));
}

#[test]
fn test_users_map_creates_new_entry() {
    let mut host = YamlMapping::new();
    let users = ensure_users_map(&mut host).unwrap();
    assert!(users.is_empty());
    assert!(host.contains_key("users"));
}

#[test]
fn test_users_map_returns_existing_entry() {
    let mut host = YamlMapping::new();
    let mut users = YamlMapping::new();
    users.insert("octocat", YamlValue::Mapping(YamlMapping::new()));
    host.insert("users", YamlValue::Mapping(users));
    let users_ref = ensure_users_map(&mut host).unwrap();
    assert!(users_ref.contains_key("octocat"));
}

#[test]
fn test_ensure_users_map_does_not_overwrite_existing() {
    let mut host = YamlMapping::new();
    let mut users = YamlMapping::new();
    users.insert("user1", YamlValue::Mapping(YamlMapping::new()));
    users.insert("user2", YamlValue::Mapping(YamlMapping::new()));
    host.insert("users", YamlValue::Mapping(users));
    let users_ref = ensure_users_map(&mut host).unwrap();
    assert_eq!(users_ref.len(), 2);
}

#[test]
fn test_users_map_works_for_gitlab_users() {
    let mut host = YamlMapping::new();
    let mut users = YamlMapping::new();
    users.insert("gitlabuser", YamlValue::Mapping(YamlMapping::new()));
    host.insert("users", YamlValue::Mapping(users));
    let users_ref = ensure_users_map(&mut host).unwrap();
    assert!(users_ref.contains_key("gitlabuser"));
}

#[test]
fn users_entry_that_is_not_a_mapping_is_refused() {
    let mut host = YamlMapping::new();
    host.insert("users", YamlValue::Other("- a\n- b\n".to_owned()));
    let error = ensure_users_map(&mut host).unwrap_err();
    assert_eq!(error.message, "users entry is not a mapping");
}

#[test]
fn test_get_hosts_path_ends_with_gh_hosts_yml() {
    let path = GhClient::hosts_path("/home/user/.config");
    assert!(path.ends_with("gh/hosts.yml"));
    assert_eq!(path, "/home/user/.config/gh/hosts.yml");
}

#[test]
fn test_get_hosts_path_ends_with_glab_cli_config_yml() {
    let hosts_configuration_path = GlClient::hosts_path("/home/user/.config/");
    assert!(hosts_configuration_path.ends_with("glab-cli/config.yml"));
    assert_eq!(hosts_configuration_path, "/home/user/.config/glab-cli/config.yml");
}

#[test]
fn test_extract_hosts_section_returns_gitlab_entry() {
    let mut gitlab_entry = YamlMapping::new();
    gitlab_entry.insert("token", string_value("glpat-secret"));
    let mut hosts = YamlMapping::new();
    hosts.insert("gitlab.com", YamlValue::Mapping(gitlab_entry));
    let mut full_configuration = YamlMapping::new();
    full_configuration.insert("git_protocol", string_value("ssh"));
    full_configuration.insert("host", string_value("gitlab.com"));
    full_configuration.insert("hosts", YamlValue::Mapping(hosts));
    let extracted_hosts_section = extract_hosts_section(&full_configuration).unwrap();
    let gitlab_hosts_entry = extracted_hosts_section
        .get("gitlab.com")
        .and_then(|value| value.as_mapping())
        .expect("gitlab.com entry should exist");
    assert_eq!(text_of(gitlab_hosts_entry.get("token")).as_deref(), Some("glpat-secret"));
}

#[test]
fn test_extract_hosts_section_returns_empty_when_absent() {
    let mut full_configuration = YamlMapping::new();
    full_configuration.insert("git_protocol", string_value("ssh"));
    let extracted_hosts_section = extract_hosts_section(&full_configuration).unwrap();
    assert!(extracted_hosts_section.is_empty());
}

#[test]
fn test_extract_hosts_section_errors_when_not_a_mapping() {
    let mut full_configuration = YamlMapping::new();
    full_configuration.insert("hosts", string_value("not-a-mapping"));
    let extract_result = extract_hosts_section(&full_configuration);
    assert!(extract_result.is_err());
    assert_eq!(extract_result.unwrap_err().message, "'hosts' key in glab config is not a mapping");
}

#[test]
fn extracting_after_merging_gives_the_merged_hosts() {
    let mut full_configuration = YamlMapping::new();
    full_configuration.insert("git_protocol", string_value("ssh"));
    let hosts = write_host_credentials(YamlMapping::new(), "gitlab.com", "me", "glpat-1", "token").unwrap();
    merge_hosts_into_configuration(&mut full_configuration, &hosts);
    set_default_vcs_host(&mut full_configuration, "gitlab.example.com");
    let extracted = extract_hosts_section(&full_configuration).unwrap();
    assert_eq!(api_token(&extracted, "gitlab.com", "token").unwrap(), "glpat-1");
    assert_eq!(text_of(full_configuration.get("git_protocol")).as_deref(), Some("ssh"));
    assert_eq!(text_of(full_configuration.get("host")).as_deref(), Some("gitlab.example.com"));
}

#[test]
fn written_credentials_are_reported_and_used() {
    let hosts = write_host_credentials(YamlMapping::new(), "github.com", "octocat", "ghp_1", "oauth_token").unwrap();
    assert_eq!(auth_status(&hosts, "github.com"), "Logged in to github.com account octocat");
    assert_eq!(api_token(&hosts, "github.com", "oauth_token").unwrap(), "ghp_1");
    assert_eq!(auth_status(&hosts, "gitlab.com"), "You are not logged into any hosts on gitlab.com");
}

#[test]
fn writing_credentials_keeps_other_hosts() {
    let hosts = write_host_credentials(YamlMapping::new(), "github.com", "octocat", "ghp_1", "oauth_token").unwrap();
    let hosts = write_host_credentials(hosts, "ghe.example.com", "worker", "ghp_2", "oauth_token").unwrap();
    assert_eq!(api_token(&hosts, "github.com", "oauth_token").unwrap(), "ghp_1");
    assert_eq!(api_token(&hosts, "ghe.example.com", "oauth_token").unwrap(), "ghp_2");
    assert_eq!(hosts.len(), 2);
}

#[test]
fn switching_back_restores_first_account_token() {
    let key = token_key(Vcs::Github);
    let hosts = write_host_credentials(YamlMapping::new(), "github.com", "alice", "ghp_a", key).unwrap();
    let hosts = write_host_credentials(hosts, "github.com", "bob", "ghp_b", key).unwrap();
    assert_eq!(api_token(&hosts, "github.com", key).unwrap(), "ghp_b");
    let hosts = auth_switch(hosts, "github.com", "alice", key).unwrap();
    assert_eq!(api_token(&hosts, "github.com", key).unwrap(), "ghp_a");
    assert_eq!(auth_status(&hosts, "github.com"), "Logged in to github.com account alice");
}

#[test]
fn auth_switch_errors_name_the_problem() {
    let key = token_key(Vcs::Gitlab);
    let error = auth_switch(YamlMapping::new(), "gitlab.com", "me", key).unwrap_err();
    assert_eq!(error.message, "not logged in to gitlab.com");
    let mut hosts = YamlMapping::new();
    hosts.insert("gitlab.com", YamlValue::Mapping(YamlMapping::new()));
    let error = auth_switch(hosts, "gitlab.com", "me", key).unwrap_err();
    assert_eq!(error.message, "no users configured for gitlab.com");
    let hosts = write_host_credentials(YamlMapping::new(), "gitlab.com", "other", "t", key).unwrap();
    let error = auth_switch(hosts, "gitlab.com", "me", key).unwrap_err();
    assert_eq!(error.message, "account me not found on gitlab.com");
}

#[test]
fn api_token_errors_name_the_problem() {
    let error = api_token(&YamlMapping::new(), "github.com", "oauth_token").unwrap_err();
    assert_eq!(error.message, "not logged in to github.com");
    let mut hosts = YamlMapping::new();
    let mut entry = YamlMapping::new();
    entry.insert("user", string_value("octocat"));
    hosts.insert("github.com", YamlValue::Mapping(entry));
    let error = api_token(&hosts, "github.com", "oauth_token").unwrap_err();
    assert_eq!(error.message, "no token found for github.com (token may be in system keyring)");
    assert_eq!(auth_status(&hosts, "github.com"), "Logged in to github.com account octocat");
}

#[test]
fn status_without_user_says_unknown() {
    let mut hosts = YamlMapping::new();
    hosts.insert("github.com", YamlValue::Mapping(YamlMapping::new()));
    assert_eq!(auth_status(&hosts, "github.com"), "Logged in to github.com account unknown");
}

#[test]
fn credentials_on_a_host_that_is_not_a_mapping_are_refused() {
    let mut hosts = YamlMapping::new();
    hosts.insert("github.com", YamlValue::Other("42\n".to_owned()));
    let error = write_host_credentials(hosts, "github.com", "octocat", "t", "oauth_token").unwrap_err();
    assert_eq!(error.message, "host entry is not a mapping");
}

#[test]
fn documents_that_are_not_mappings_are_refused() {
    let error = GhClient::hosts_from_document(YamlValue::Other("[]\n".to_owned())).unwrap_err();
    assert_eq!(error.message, "hosts config is not a YAML mapping");
    let error = GlClient::configuration_from_document(string_value("x")).unwrap_err();
    assert_eq!(error.message, "glab config is not a YAML mapping");
    assert!(GhClient::hosts_from_document(YamlValue::Mapping(YamlMapping::new())).is_ok());
}

#[test]
fn github_api_address_depends_on_host() {
    assert!(GhClient::api_base_uri("github.com").is_none());
    assert_eq!(GhClient::api_base_uri("ghe.example.com").as_deref(), Some("https://ghe.example.com/api/v3"));
}

#[test]
fn token_keys_of_each_command_line() {
    assert_eq!(token_key(Vcs::Github), "oauth_token");
    assert_eq!(token_key(Vcs::Gitlab), "token");
}

#[test]
fn test_read_full_configuration_parses_glab_config_with_null_tagged_token() {
    let full_configuration = GlClient::configuration_from_text(
        "git_protocol: ssh\nhost: gitlab.com\nhosts:\n    gitlab.com:\n        token: !!null glpat-secret123\n        user: test_user\n",
    )
    .unwrap();
    let hosts_section = full_configuration
        .get("hosts")
        .and_then(|value| value.as_mapping())
        .expect("hosts section should exist");
    let gitlab_entry = hosts_section
        .get("gitlab.com")
        .and_then(|value| value.as_mapping())
        .expect("gitlab.com entry should exist");
    assert_eq!(text_of(gitlab_entry.get("token")), Some("glpat-secret123".to_owned()));
    assert_eq!(text_of(gitlab_entry.get("user")), Some("test_user".to_owned()));
}

#[test]
fn test_read_full_configuration_returns_empty_for_empty_file() {
    let parsed_configuration = GlClient::configuration_from_text("").unwrap();
    assert!(parsed_configuration.is_empty());
}

#[test]
fn configuration_texts_that_are_blank_bad_or_not_mappings() {
    assert!(GlClient::configuration_from_text(" \n\t").unwrap().is_empty());
    assert!(GhClient::hosts_from_text("\n").unwrap().is_empty());
    assert_eq!(GlClient::configuration_from_text("- a\n- b\n").unwrap_err().message, "glab config is not a YAML mapping");
    assert_eq!(GhClient::hosts_from_text("just text").unwrap_err().message, "hosts config is not a YAML mapping");
    assert_eq!(GlClient::configuration_from_text("a: [1, 2").unwrap_err().message, "could not parse glab config");
    assert_eq!(GhClient::hosts_from_text("a: 'unterminated").unwrap_err().message, "could not parse hosts config");
}

#[test]
fn gh_hosts_text_keeps_entries_in_order() {
    let hosts = GhClient::hosts_from_text(
        "github.com:\n    user: octocat\n    oauth_token: gho_abc\n    git_protocol: https\nenterprise.example:\n    user: me\n",
    )
    .unwrap();
    assert_eq!(hosts.len(), 2);
    assert_eq!(hosts.entries[0].0.as_text().map(|s| s.as_str()), Some("github.com"));
    let github = hosts.get("github.com").and_then(|v| v.as_mapping()).unwrap();
    assert_eq!(text_of(github.get("oauth_token")), Some("gho_abc".to_owned()));
    assert_eq!(auth_status(&hosts, "enterprise.example"), "Logged in to enterprise.example account me");
}

#[test]
fn written_user_has_its_own_entry_and_can_be_switched_to() {
    let key = token_key(Vcs::Gitlab);
    let hosts = write_host_credentials(YamlMapping::new(), "gitlab.com", "carol", "glpat-c", key).unwrap();
    let users = hosts
        .get("gitlab.com")
        .and_then(|h| h.as_mapping())
        .and_then(|h| h.get("users"))
        .and_then(|u| u.as_mapping())
        .unwrap();
    let entry = users.get("carol").and_then(|e| e.as_mapping()).unwrap();
    assert_eq!(entry.len(), 1);
    assert_eq!(text_of(entry.get("token")), Some("glpat-c".to_owned()));
    let hosts = auth_switch(hosts, "gitlab.com", "carol", key).unwrap();
    assert_eq!(auth_status(&hosts, "gitlab.com"), "Logged in to gitlab.com account carol");
    assert_eq!(api_token(&hosts, "gitlab.com", key).unwrap(), "glpat-c");
}

#[test]
fn configuration_texts_read_back() {
    let key = token_key(Vcs::Github);
    let hosts = write_host_credentials(YamlMapping::new(), "github.com", "alice", "ghp_a", key).unwrap();
    let text = GhClient::hosts_text(&hosts).unwrap();
    assert!(text.contains("oauth_token: ghp_a"));
    let read_back = GhClient::hosts_from_text(&text).unwrap();
    assert_eq!(auth_status(&read_back, "github.com"), "Logged in to github.com account alice");
    assert_eq!(api_token(&read_back, "github.com", key).unwrap(), "ghp_a");

    let full = GlClient::configuration_from_text("git_protocol: ssh\ncheck_update: false\nport: 443\nhosts:\n  gitlab.com:\n    token: !!null glpat-x\n").unwrap();
    let text = GlClient::configuration_text(&full).unwrap();
    assert!(text.starts_with("git_protocol: ssh\ncheck_update: false\nport: 443\n"));
    let again = GlClient::configuration_from_text(&text).unwrap();
    assert_eq!(again.len(), 4);
    let hosts = extract_hosts_section(&again).unwrap();
    let gitlab = hosts.get("gitlab.com").and_then(|v| v.as_mapping()).unwrap();
    assert_eq!(text_of(gitlab.get("token")), Some("glpat-x".to_owned()));
}

#[test]
fn tagged_nodes_are_read_as_the_node_they_tag() {
    let hosts = GhClient::hosts_from_text("github.com: !custom\n    user: !name octocat\n    oauth_token: gho_t\n").unwrap();
    assert_eq!(auth_status(&hosts, "github.com"), "Logged in to github.com account octocat");
    assert_eq!(api_token(&hosts, "github.com", token_key(Vcs::Github)).unwrap(), "gho_t");
}
