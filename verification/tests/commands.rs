use kalamarnica::apply_context::ApplyContext;
use kalamarnica::clients::token_key;
use kalamarnica::cmd::apply::{Apply, ApplyProgress};
use kalamarnica::cmd::auth_status::{AuthStatus, AuthStatusProgress};
use kalamarnica::cmd::bind::{Bind, BindProgress};
use kalamarnica::cmd::create::{Create, CreateProgress};
use kalamarnica::cmd::current::{Current, CurrentProgress};
use kalamarnica::cmd::delete::{Delete, DeleteProgress};
use kalamarnica::cmd::list::{List, ListProgress};
use kalamarnica::cmd::protocol::{EnvValue, LogLevel, Reply, Request, Step};
use kalamarnica::cmd::set_token::{SetToken, SetTokenProgress};
use kalamarnica::cmd::switch::{Switch, SwitchProgress};
use kalamarnica::cmd::unbind::{Unbind, UnbindProgress};
use kalamarnica::context::Context;
use kalamarnica::failure::Failure;
use kalamarnica::hosts;
use kalamarnica::names::DirEntryInfo;
use kalamarnica::storage::{ContextList, Storage};
use kalamarnica::test_utils::{sample_context, sample_gitlab_context};
use kalamarnica::transport::Transport;
use kalamarnica::vcs::Vcs;
use kalamarnica::yaml::YamlMapping;

/// An in-memory stand-in for the files, terminal and VCS command lines that
/// the commands work on.
struct World {
    storage: Storage,
    contexts: Vec<(String, Vcs, Context)>,
    tokens: Vec<(String, Vcs, String)>,
    active: Option<(String, Vcs)>,
    github_hosts: YamlMapping,
    gitlab_hosts: YamlMapping,
    files: Vec<(String, String)>,
    workdir: Option<String>,
    input_line: String,
    logs: Vec<(LogLevel, String)>,
}

impl World {
    fn new() -> World {
        World {
            storage: Storage::with_base_dir("/tmp/config/kalamarnica".to_owned()),
            contexts: Vec::new(),
            tokens: Vec::new(),
            active: None,
            github_hosts: YamlMapping::new(),
            gitlab_hosts: YamlMapping::new(),
            files: Vec::new(),
            workdir: None,
            input_line: String::new(),
            logs: Vec::new(),
        }
    }

    fn write_context(&mut self, name: &str, vcs: Vcs, context: Context) {
        self.contexts.retain(|(n, v, _)| !(n == name && *v == vcs));
        self.contexts.push((name.to_owned(), vcs, context));
    }

    fn context_exists(&self, name: &str, vcs: Vcs) -> bool {
        self.contexts.iter().any(|(n, v, _)| n == name && *v == vcs)
    }

    fn read_context(&self, name: &str, vcs: Vcs) -> Option<Context> {
        self.contexts.iter().find(|(n, v, _)| n == name && *v == vcs).map(|(_, _, c)| c.duplicate())
    }

    fn read_token(&self, name: &str, vcs: Vcs) -> Option<String> {
        self.tokens.iter().find(|(n, v, _)| n == name && *v == vcs).map(|(_, _, t)| t.clone())
    }

    fn write_token(&mut self, name: &str, vcs: Vcs, token: &str) {
        self.tokens.retain(|(n, v, _)| !(n == name && *v == vcs));
        self.tokens.push((name.to_owned(), vcs, token.to_owned()));
    }

    fn set_active(&mut self, name: &str, vcs: Vcs) {
        self.active = Some((name.to_owned(), vcs));
    }

    fn file(&self, path: &str) -> Option<String> {
        self.files.iter().find(|(p, _)| p == path).map(|(_, c)| c.clone())
    }

    fn hosts(&mut self, vcs: Vcs) -> &mut YamlMapping {
        match vcs {
            Vcs::Github => &mut self.github_hosts,
            Vcs::Gitlab => &mut self.gitlab_hosts,
        }
    }

    fn entries(&self, vcs: Vcs) -> Vec<DirEntryInfo> {
        let mut entries: Vec<DirEntryInfo> = self
            .contexts
            .iter()
            .filter(|(_, v, _)| *v == vcs)
            .map(|(n, _, _)| DirEntryInfo { name: n.clone(), is_context: true })
            .collect();
        entries.push(DirEntryInfo { name: "not-a-context".to_owned(), is_context: false });
        entries
    }

    fn perform(&mut self, request: Request) -> Reply {
        match request {
            Request::ContextExists { name, vcs } => Reply::Flag(self.context_exists(&name, vcs)),
            Request::ReadContext { name, vcs } => match self.read_context(&name, vcs) {
                Some(c) => Reply::Context(c),
                None => Reply::Failed(Failure::new(format!("context '{name}' not found"))),
            },
            Request::WriteContext { name, vcs, context } => {
                self.write_context(&name, vcs, context);
                Reply::Done
            },
            Request::DeleteContext { name, vcs } => {
                self.contexts.retain(|(n, v, _)| !(*n == name && *v == vcs));
                self.tokens.retain(|(n, v, _)| !(*n == name && *v == vcs));
                Reply::Done
            },
            Request::ClearActive => {
                self.active = None;
                Reply::Done
            },
            Request::ReadToken { name, vcs } => Reply::MaybeText(self.read_token(&name, vcs)),
            Request::WriteToken { name, vcs, token } => {
                self.write_token(&name, vcs, &token);
                Reply::Done
            },
            Request::GetActive => Reply::Active(
                self.active.as_ref().map(|(n, v)| ApplyContext::new(n.clone(), *v)),
            ),
            Request::SetActive { active } => {
                self.active = Some((active.name, active.vcs));
                Reply::Done
            },
            Request::ListContexts => Reply::Contexts(ContextList::from_entries(
                self.entries(Vcs::Github),
                self.entries(Vcs::Gitlab),
            )),
            Request::WriteHostCredentials { vcs, hostname, user, token } => {
                let hosts_config = std::mem::replace(self.hosts(vcs), YamlMapping::new());
                match hosts::write_host_credentials(hosts_config, &hostname, &user, &token, token_key(vcs)) {
                    Ok(updated) => {
                        *self.hosts(vcs) = updated;
                        Reply::Done
                    },
                    Err(e) => Reply::Failed(e),
                }
            },
            Request::SetDefaultHost { .. } => Reply::Done,
            Request::AuthStatus { vcs, hostname } => Reply::Text(hosts::auth_status(self.hosts(vcs), &hostname)),
            Request::AuthSwitch { vcs, hostname, user } => {
                let hosts_config = std::mem::replace(self.hosts(vcs), YamlMapping::new());
                let copy = hosts_config.duplicate();
                match hosts::auth_switch(hosts_config, &hostname, &user, token_key(vcs)) {
                    Ok(updated) => {
                        *self.hosts(vcs) = updated;
                        Reply::Done
                    },
                    Err(e) => {
                        *self.hosts(vcs) = copy;
                        Reply::Failed(e)
                    },
                }
            },
            Request::ApiUser { vcs, hostname } => match hosts::api_token(self.hosts(vcs), &hostname, token_key(vcs)) {
                Ok(token) => Reply::Text(token.trim_start_matches("token-of-").to_owned()),
                Err(e) => Reply::Failed(e),
            },
            Request::ReadEnv { .. } => Reply::Env(EnvValue::NotPresent),
            Request::ReadLine => Reply::Text(self.input_line.clone()),
            Request::RepoRoot => Reply::MaybeText(self.workdir.clone()),
            Request::FileExists { path } => Reply::Flag(self.file(&path).is_some()),
            Request::ReadBinding { path } => match self.file(&path) {
                Some(content) => {
                    let mut name = None;
                    let mut vcs = None;
                    for line in content.lines() {
                        if let Some(value) = line.strip_prefix("name = \"") {
                            name = Some(value.trim_end_matches('"').to_owned());
                        }
                        if let Some(value) = line.strip_prefix("vcs = \"") {
                            vcs = Vcs::parse(value.trim_end_matches('"')).ok();
                        }
                    }
                    match (name, vcs) {
                        (Some(n), Some(v)) => Reply::Active(Some(ApplyContext::new(n, v))),
                        _ => Reply::Failed(Failure::new("could not parse binding".to_owned())),
                    }
                },
                None => Reply::Failed(Failure::new("no such file".to_owned())),
            },
            Request::WriteFile { path, content } => {
                self.files.retain(|(p, _)| *p != path);
                self.files.push((path, content));
                Reply::Done
            },
            Request::RemoveFile { path } => {
                self.files.retain(|(p, _)| *p != path);
                Reply::Done
            },
            Request::Log { level, message } => {
                self.logs.push((level, message));
                Reply::Done
            },
        }
    }

    fn logged(&self, message: &str) -> bool {
        self.logs.iter().any(|(_, m)| m == message)
    }
}

fn drive<P>(world: &mut World, start: P, mut step: impl FnMut(P, Reply) -> (P, Step)) -> Result<(), String> {
    let mut progress = start;
    let mut reply = Reply::Started;
    for _ in 0..1000 {
        let (next, s) = step(progress, reply);
        progress = next;
        match s {
            Step::Perform(request) => reply = world.perform(request),
            Step::Finish(Ok(())) => return Ok(()),
            Step::Finish(Err(e)) => return Err(e.message),
        }
    }
    Err("command did not finish".to_owned())
}

fn run_switch(world: &mut World, switch: &Switch) -> Result<(), String> {
    drive(world, SwitchProgress::Start, |p, r| switch.execute(p, r))
}

fn run_create(world: &mut World, create: &Create) -> Result<(), String> {
    drive(world, CreateProgress::Start, |p, r| create.execute(p, r))
}

fn run_delete(world: &mut World, delete: &Delete) -> Result<(), String> {
    drive(world, DeleteProgress::Start, |p, r| delete.execute(p, r))
}

fn run_set_token(world: &mut World, set_token: &SetToken) -> Result<(), String> {
    drive(world, SetTokenProgress::Start, |p, r| set_token.execute(p, r))
}

fn run_list(world: &mut World) -> Result<(), String> {
    drive(world, ListProgress::Start, |p, r| List.execute(p, r))
}

fn run_auth_status(world: &mut World) -> Result<(), String> {
    drive(world, AuthStatusProgress::Start, |p, r| AuthStatus.execute(p, r))
}

fn run_bind(world: &mut World, bind: &Bind) -> Result<(), String> {
    drive(world, BindProgress::Start, |p, r| bind.execute(p, r))
}

fn run_unbind(world: &mut World) -> Result<(), String> {
    drive(world, UnbindProgress::Start, |p, r| Unbind.execute(p, r))
}

fn run_apply(world: &mut World) -> Result<(), String> {
    drive(world, ApplyProgress::Start, |p, r| Apply.execute(p, r))
}

fn run_current(world: &mut World) -> Result<(), String> {
    drive(world, CurrentProgress::Start, |p, r| Current.execute(p, r))
}

fn manual_create(name: &str, hostname: Option<&str>, user: Option<&str>, vcs: Vcs) -> Create {
    Create {
        name: name.to_owned(),
        from_current: false,
        hostname: hostname.map(str::to_owned),
        user: user.map(str::to_owned),
        transport: Transport::Ssh,
        vcs,
    }
}

#[test]
fn test_switch_to_nonexistent_context_fails() {
    let mut world = World::new();
    let context_name = "nonexistent".to_string();
    let switch_handler = Switch::for_context(context_name.to_owned(), Vcs::Github);
    let error = run_switch(&mut world, &switch_handler).unwrap_err();
    assert_eq!(error, format!("context '{context_name}' does not exist"));
}

#[test]
fn test_switch_to_existing_context_succeeds() {
    let mut world = World::new();
    world.write_context("work", Vcs::Github, sample_context());
    let switch_handler = Switch::for_context("work".to_owned(), Vcs::Github);
    run_switch(&mut world, &switch_handler).unwrap();
    assert_eq!(world.active, Some(("work".to_owned(), Vcs::Github)));
}

#[test]
fn switch_applies_stored_token_and_verifies_user() {
    let mut world = World::new();
    world.write_context("work", Vcs::Github, sample_context());
    world.write_token("work", Vcs::Github, "token-of-testuser");
    let switch_handler = Switch::for_context("work".to_owned(), Vcs::Github);
    run_switch(&mut world, &switch_handler).unwrap();
    assert!(world.logged("Applied stored token for 'work'"));
    assert!(world.logged("Authentication verified"));
    assert!(world.logged("Switched to context 'work' (testuser@github.com, ssh, github)"));
    assert_eq!(
        hosts::auth_status(&world.github_hosts, "github.com"),
        "Logged in to github.com account testuser"
    );
}

#[test]
fn switch_without_login_reports_instruction() {
    let mut world = World::new();
    world.write_context("work", Vcs::Gitlab, sample_gitlab_context());
    let switch_handler = Switch::for_context("work".to_owned(), Vcs::Gitlab);
    run_switch(&mut world, &switch_handler).unwrap();
    assert!(world.logged(
        "Authentication required for testuser@gitlab.com (not logged in as testuser)\n  Run: kalamarnica set-token --name work --token <your-personal-access-token>"
    ));
}

#[test]
fn switch_reports_unexpected_api_user() {
    let mut world = World::new();
    world.write_context("work", Vcs::Github, sample_context());
    world.write_token("work", Vcs::Github, "token-of-someoneelse");
    let switch_handler = Switch::for_context("work".to_owned(), Vcs::Github);
    run_switch(&mut world, &switch_handler).unwrap();
    assert!(world.logged(
        "Authentication required for testuser@github.com (expected user testuser, got someoneelse)\n  Run: gh auth login --hostname github.com --user testuser --scopes repo,read:org"
    ));
}

#[test]
fn switch_between_accounts_restores_each_token() {
    let mut world = World::new();
    world.write_context("personal", Vcs::Github, Context::new("github.com".to_owned(), "alice".to_owned(), Transport::Ssh));
    world.write_context("work", Vcs::Github, Context::new("github.com".to_owned(), "bob".to_owned(), Transport::Https));
    world.write_token("personal", Vcs::Github, "token-of-alice");
    world.write_token("work", Vcs::Github, "token-of-bob");
    run_switch(&mut world, &Switch::for_context("personal".to_owned(), Vcs::Github)).unwrap();
    run_switch(&mut world, &Switch::for_context("work".to_owned(), Vcs::Github)).unwrap();
    assert_eq!(hosts::api_token(&world.github_hosts, "github.com", "oauth_token").unwrap(), "token-of-bob");
    run_switch(&mut world, &Switch::for_context("personal".to_owned(), Vcs::Github)).unwrap();
    assert_eq!(hosts::api_token(&world.github_hosts, "github.com", "oauth_token").unwrap(), "token-of-alice");
    assert_eq!(
        hosts::auth_status(&world.github_hosts, "github.com"),
        "Logged in to github.com account alice"
    );
}

#[test]
fn switch_without_stored_token_needs_login_as_context_user() {
    let mut world = World::new();
    world.write_context("personal", Vcs::Github, Context::new("github.com".to_owned(), "alice".to_owned(), Transport::Ssh));
    world.github_hosts =
        hosts::write_host_credentials(YamlMapping::new(), "github.com", "bob", "token-of-bob", "oauth_token").unwrap();
    run_switch(&mut world, &Switch::for_context("personal".to_owned(), Vcs::Github)).unwrap();
    assert!(world.logged(
        "Authentication required for alice@github.com (not logged in as alice)\n  Run: gh auth login --hostname github.com --user alice --scopes repo,read:org"
    ));
    assert_eq!(world.active, Some(("personal".to_owned(), Vcs::Github)));
}

#[test]
fn test_create_context_already_exists_fails() {
    let mut world = World::new();
    let context_name = "work";
    world.write_context(context_name, Vcs::Github, sample_context());
    let create = manual_create(context_name, Some("github.com"), Some("newuser"), Vcs::Github);
    let error = run_create(&mut world, &create).unwrap_err();
    assert_eq!(error, format!("context '{context_name}' already exists"));
}

#[test]
fn test_create_context_same_name_different_vcs_succeeds() {
    let mut world = World::new();
    world.write_context("work", Vcs::Github, sample_context());
    let create = manual_create("work", Some("gitlab.com"), Some("gitlabuser"), Vcs::Gitlab);
    run_create(&mut world, &create).unwrap();
    assert!(world.context_exists("work", Vcs::Github));
    assert!(world.context_exists("work", Vcs::Gitlab));
}

#[test]
fn test_create_context_manual_without_hostname_fails() {
    let mut world = World::new();
    let create = manual_create("work", None, Some("testuser"), Vcs::Github);
    let error = run_create(&mut world, &create).unwrap_err();
    assert_eq!(error, "--hostname is required (or use --from-current)");
}

#[test]
fn test_create_context_manual_without_user_fails() {
    let mut world = World::new();
    let create = manual_create("work", Some("github.com"), None, Vcs::Github);
    let error = run_create(&mut world, &create).unwrap_err();
    assert_eq!(error, "--user is required (or use --from-current)");
}

#[test]
fn test_create_context_manual_succeeds() {
    let mut world = World::new();
    let create = manual_create("work", Some("github.com"), Some("testuser"), Vcs::Github);
    run_create(&mut world, &create).unwrap();
    assert!(world.context_exists("work", Vcs::Github));
    let context = world.read_context("work", Vcs::Github).unwrap();
    assert_eq!(context.hostname, "github.com");
    assert_eq!(context.user, "testuser");
    assert!(matches!(context.transport, Transport::Ssh));
    assert!(world.logged("Created context 'work' (testuser@github.com, ssh, github)"));
}

#[test]
fn test_create_multiple_contexts_under_same_vcs() {
    let mut world = World::new();
    for name in ["personal", "work"] {
        let user = format!("{name}user");
        let create = manual_create(name, Some("github.com"), Some(&user), Vcs::Github);
        run_create(&mut world, &create).unwrap();
    }
    assert!(world.context_exists("personal", Vcs::Github));
    assert!(world.context_exists("work", Vcs::Github));
    assert_eq!(
        world.storage.configuration_path(Vcs::Github, "personal"),
        "/tmp/config/kalamarnica/github/personal/configuration.toml"
    );
    assert_eq!(
        world.storage.configuration_path(Vcs::Github, "work"),
        "/tmp/config/kalamarnica/github/work/configuration.toml"
    );
}

#[test]
fn create_from_current_session_uses_default_host_and_api_user() {
    let mut world = World::new();
    world.github_hosts =
        hosts::write_host_credentials(YamlMapping::new(), "github.com", "octocat", "token-of-octocat", "oauth_token")
            .unwrap();
    let create = Create {
        name: "current".to_owned(),
        from_current: true,
        hostname: None,
        user: None,
        transport: Transport::Https,
        vcs: Vcs::Github,
    };
    run_create(&mut world, &create).unwrap();
    let context = world.read_context("current", Vcs::Github).unwrap();
    assert_eq!(context.hostname, "github.com");
    assert_eq!(context.user, "octocat");
    assert!(matches!(context.transport, Transport::Https));
}

#[test]
fn test_delete_nonexistent_context_fails() {
    let mut world = World::new();
    let context_name = "nonexistent";
    let handler = Delete::new(context_name.to_owned(), Vcs::Github);
    let error = run_delete(&mut world, &handler).unwrap_err();
    assert_eq!(error, format!("context '{context_name}' does not exist"));
}

#[test]
fn test_delete_existing_context_succeeds() {
    let mut world = World::new();
    world.write_context("work", Vcs::Github, sample_context());
    let handler = Delete::new("work".to_owned(), Vcs::Github);
    run_delete(&mut world, &handler).unwrap();
    assert!(!world.context_exists("work", Vcs::Github));
    assert!(world.logged("Deleted context 'work'"));
}

#[test]
fn deleting_the_active_context_clears_it() {
    let mut world = World::new();
    world.write_context("work", Vcs::Github, sample_context());
    world.set_active("work", Vcs::Github);
    run_delete(&mut world, &Delete::new("work".to_owned(), Vcs::Github)).unwrap();
    assert_eq!(world.active, None);
    assert!(world.logged("Deleted context 'work'"));
}

#[test]
fn deleting_another_context_keeps_the_active_one() {
    let mut world = World::new();
    world.write_context("work", Vcs::Github, sample_context());
    world.write_context("work", Vcs::Gitlab, sample_gitlab_context());
    world.write_context("home", Vcs::Github, sample_context());
    world.set_active("work", Vcs::Github);
    run_delete(&mut world, &Delete::new("work".to_owned(), Vcs::Gitlab)).unwrap();
    run_delete(&mut world, &Delete::new("home".to_owned(), Vcs::Github)).unwrap();
    assert_eq!(world.active, Some(("work".to_owned(), Vcs::Github)));
}

#[test]
fn test_delete_context_with_token_removes_both() {
    let mut world = World::new();
    world.write_context("work", Vcs::Github, sample_context());
    world.write_token("work", Vcs::Github, "ghp_test123");
    let handler = Delete::new("work".to_owned(), Vcs::Github);
    run_delete(&mut world, &handler).unwrap();
    assert!(!world.context_exists("work", Vcs::Github));
    assert!(world.read_token("work", Vcs::Github).is_none());
}

#[test]
fn test_delete_context_only_removes_specified_vcs() {
    let mut world = World::new();
    world.write_context("work", Vcs::Github, sample_context());
    world.write_context("work", Vcs::Gitlab, sample_context());
    let handler = Delete::new("work".to_owned(), Vcs::Github);
    run_delete(&mut world, &handler).unwrap();
    assert!(!world.context_exists("work", Vcs::Github));
    assert!(world.context_exists("work", Vcs::Gitlab));
}

#[test]
fn test_list_empty_contexts_succeeds() {
    let mut world = World::new();
    run_list(&mut world).unwrap();
    assert!(world.logged(
        "No contexts found. Create one with: kalamarnica create --name <name> --vcs <vcs> --hostname <host> --user <user>"
    ));
}

#[test]
fn test_list_single_context_succeeds() {
    let mut world = World::new();
    world.write_context("work", Vcs::Github, sample_context());
    run_list(&mut world).unwrap();
    assert!(world.logged("work (testuser@github.com, ssh, github)"));
}

#[test]
fn test_list_multiple_contexts_succeeds() {
    let mut world = World::new();
    world.write_context("work", Vcs::Github, sample_context());
    world.write_context("personal", Vcs::Gitlab, sample_gitlab_context());
    run_list(&mut world).unwrap();
    let lines: Vec<&str> = world.logs.iter().map(|(_, m)| m.as_str()).collect();
    assert_eq!(
        lines,
        vec!["work (testuser@github.com, ssh, github)", "personal (testuser@gitlab.com, ssh, gitlab)"]
    );
}

#[test]
fn test_list_with_active_context_succeeds() {
    let mut world = World::new();
    world.write_context("work", Vcs::Github, sample_context());
    world.write_context("personal", Vcs::Github, sample_context());
    world.set_active("work", Vcs::Github);
    run_list(&mut world).unwrap();
    let lines: Vec<&str> = world.logs.iter().map(|(_, m)| m.as_str()).collect();
    assert_eq!(
        lines,
        vec!["personal (testuser@github.com, ssh, github)", "work * (testuser@github.com, ssh, github)"]
    );
}

#[test]
fn listing_and_reporting_change_nothing() {
    let mut world = World::new();
    world.write_context("work", Vcs::Github, sample_context());
    world.write_context("ops", Vcs::Gitlab, sample_gitlab_context());
    world.write_token("work", Vcs::Github, "ghp_x");
    world.set_active("ops", Vcs::Gitlab);
    run_list(&mut world).unwrap();
    run_auth_status(&mut world).unwrap();
    assert_eq!(world.contexts.len(), 2);
    assert_eq!(world.read_token("work", Vcs::Github), Some("ghp_x".to_owned()));
    assert_eq!(world.active, Some(("ops".to_owned(), Vcs::Gitlab)));
    assert!(world.github_hosts.is_empty());
    assert!(world.gitlab_hosts.is_empty());
}

#[test]
fn test_list_same_name_across_vcs_succeeds() {
    let mut world = World::new();
    world.write_context("work", Vcs::Github, sample_context());
    world.write_context("work", Vcs::Gitlab, sample_gitlab_context());
    run_list(&mut world).unwrap();
    assert!(world.logged("work (testuser@github.com, ssh, github)"));
    assert!(world.logged("work (testuser@gitlab.com, ssh, gitlab)"));
}

#[test]
fn test_auth_status_with_no_contexts_succeeds() {
    let mut world = World::new();
    run_auth_status(&mut world).unwrap();
    assert!(world.logged("No contexts found."));
}

#[test]
fn test_auth_status_with_context_succeeds() {
    let mut world = World::new();
    world.write_context("work", Vcs::Github, sample_context());
    run_auth_status(&mut world).unwrap();
    assert!(world.logged("github"));
    assert!(world.logged(
        "work\n  Host: github.com\n  User: testuser\n  Transport: ssh\n  Token: none (using shared keyring)\n  Auth: not authenticated\n    Run: gh auth login --hostname github.com --user testuser --scopes repo,read:org"
    ));
}

#[test]
fn auth_status_reports_verified_login_and_groups_by_vcs() {
    let mut world = World::new();
    world.write_context("work", Vcs::Github, sample_context());
    world.write_context("lab", Vcs::Gitlab, sample_gitlab_context());
    world.write_token("work", Vcs::Github, "token-of-testuser");
    world.set_active("work", Vcs::Github);
    world.github_hosts =
        hosts::write_host_credentials(YamlMapping::new(), "github.com", "testuser", "token-of-testuser", "oauth_token")
            .unwrap();
    run_auth_status(&mut world).unwrap();
    let lines: Vec<&str> = world.logs.iter().map(|(_, m)| m.as_str()).collect();
    assert_eq!(lines.len(), 4);
    assert_eq!(lines[0], "github");
    assert_eq!(
        lines[1],
        "work *\n  Host: github.com\n  User: testuser\n  Transport: ssh\n  Token: stored\n  Auth: verified"
    );
    assert_eq!(lines[2], "gitlab");
    assert!(lines[3].starts_with("lab\n  Host: gitlab.com"));
}

#[test]
fn test_set_token_for_nonexistent_context_fails() {
    let mut world = World::new();
    let context_name = "nonexistent";
    let handler = SetToken::new(context_name.to_owned(), Vcs::Github);
    world.input_line = "ghp_secret123".to_owned();
    let error = run_set_token(&mut world, &handler).unwrap_err();
    assert_eq!(error, format!("context '{context_name}' does not exist"));
}

#[test]
fn test_set_token_for_existing_context_succeeds() {
    let mut world = World::new();
    world.write_context("work", Vcs::Github, sample_context());
    let handler = SetToken::new("work".to_owned(), Vcs::Github);
    world.input_line = "ghp_secret123".to_owned();
    run_set_token(&mut world, &handler).unwrap();
    assert_eq!(world.read_token("work", Vcs::Github).as_deref(), Some("ghp_secret123"));
}

#[test]
fn set_token_trims_the_line_read() {
    let mut world = World::new();
    world.write_context("work", Vcs::Github, sample_context());
    let handler = SetToken::new("work".to_owned(), Vcs::Github);
    world.input_line = "  ghp_secret123\n".to_owned();
    run_set_token(&mut world, &handler).unwrap();
    assert_eq!(world.read_token("work", Vcs::Github).as_deref(), Some("ghp_secret123"));
    assert!(world.logged("Paste the token for work: "));
    assert!(world.logged("Stored token for context 'work'"));
}

#[test]
fn test_bind_nonexistent_context_fails() {
    let mut world = World::new();
    let context_name = "nonexistent";
    let handler = Bind::new(context_name.to_owned(), Vcs::Github);
    let error = run_bind(&mut world, &handler).unwrap_err();
    assert_eq!(error, format!("context '{context_name}' does not exist"));
}

#[test]
fn test_bind_outside_git_repo_fails() {
    let mut world = World::new();
    world.write_context("work", Vcs::Github, sample_context());
    let handler = Bind::new("work".to_owned(), Vcs::Github);
    let error = run_bind(&mut world, &handler).unwrap_err();
    assert_eq!(error, "not inside a git repository");
}

#[test]
fn test_bind_inside_git_repo_creates_vcs_context_file() {
    let mut world = World::new();
    world.write_context("work", Vcs::Github, sample_context());
    world.workdir = Some("/tmp/repo/".to_owned());
    let handler = Bind::new("work".to_owned(), Vcs::Github);
    run_bind(&mut world, &handler).unwrap();
    let vcs_context_content = world.file("/tmp/repo/.vcs_context").unwrap();
    assert!(vcs_context_content.contains("name = \"work\""));
    assert!(vcs_context_content.contains("vcs = \"github\""));
    assert!(world.logged("Bound context 'work' (github) to /tmp/repo"));
}

#[test]
fn test_unbind_outside_git_repo_fails() {
    let mut world = World::new();
    let error = run_unbind(&mut world).unwrap_err();
    assert_eq!(error, "not inside a git repository");
}

#[test]
fn test_unbind_without_vcs_context_file_succeeds() {
    let mut world = World::new();
    world.workdir = Some("/tmp/repo/".to_owned());
    run_unbind(&mut world).unwrap();
    assert!(world.logged("No context bound to this repository"));
}

#[test]
fn test_unbind_with_vcs_context_file_removes_it() {
    let mut world = World::new();
    world.workdir = Some("/tmp/repo/".to_owned());
    world.files.push(("/tmp/repo/.vcs_context".to_owned(), "[github]\nname = \"work\"".to_owned()));
    run_unbind(&mut world).unwrap();
    assert!(world.file("/tmp/repo/.vcs_context").is_none());
    assert!(world.logged("Unbound context from /tmp/repo"));
}

#[test]
fn test_apply_outside_git_repo_fails() {
    let mut world = World::new();
    let error = run_apply(&mut world).unwrap_err();
    assert_eq!(error, "not inside a git repository");
}

#[test]
fn test_apply_without_vcs_context_file_fails() {
    let mut world = World::new();
    world.workdir = Some("/tmp/repo/".to_owned());
    let error = run_apply(&mut world).unwrap_err();
    assert_eq!(
        error,
        "no context bound to this repository (use 'kalamarnica bind <name> --vcs <vcs>' first)"
    );
}

#[test]
fn apply_switches_to_the_bound_context() {
    let mut world = World::new();
    world.write_context("work", Vcs::Gitlab, sample_gitlab_context());
    world.workdir = Some("/tmp/repo".to_owned());
    run_bind(&mut world, &Bind::new("work".to_owned(), Vcs::Gitlab)).unwrap();
    run_apply(&mut world).unwrap();
    assert_eq!(world.active, Some(("work".to_owned(), Vcs::Gitlab)));
    assert!(world.logged("Switched to context 'work' (testuser@gitlab.com, ssh, gitlab)"));
}

#[test]
fn test_no_active_context_succeeds() {
    let mut world = World::new();
    world.workdir = Some("/tmp/repo".to_owned());
    run_current(&mut world).unwrap();
    assert!(world.logged("No active context"));
}

#[test]
fn test_with_active_context_succeeds() {
    let mut world = World::new();
    world.write_context("work", Vcs::Github, sample_context());
    world.set_active("work", Vcs::Github);
    world.workdir = Some("/tmp/repo".to_owned());
    run_current(&mut world).unwrap();
    assert!(world.logged("work (testuser@github.com, ssh, github)"));
}

#[test]
fn test_with_repo_bound_context_succeeds() {
    let mut world = World::new();
    world.workdir = Some("/tmp/repo".to_owned());
    world.files.push(("/tmp/repo/.vcs_context".to_owned(), "name = \"work\"\nvcs = \"github\"".to_owned()));
    run_current(&mut world).unwrap();
    assert!(world.logged("Repo-bound context: work (github)"));
}

#[test]
fn test_outside_git_repo_succeeds() {
    let mut world = World::new();
    run_current(&mut world).unwrap();
    assert_eq!(world.logs.len(), 1);
}
