use vstd::prelude::*;

use crate::failure::Failure;
use crate::path::{join, path_join};
use crate::vcs::Vcs;
use crate::gl_config::{strip_glab_null_tags, without_null_tags};
use crate::text::{is_blank, is_blank_text};
use crate::yaml::{Table, YamlMapping, YamlValue, YamlView};
use crate::yaml_text::{emit_yaml, emitted_yaml, parse_yaml, parsed_yaml};

verus! {

/// The GitHub command line (`gh`) and its hosts configuration.
pub struct GhClient;

/// The GitLab command line (`glab`) and its configuration.
pub struct GlClient;

/// The key under which a VCS command line keeps the token of a host.
pub open spec fn token_key_of(vcs: Vcs) -> Seq<char> {
    match vcs {
        Vcs::Github => "oauth_token"@,
        Vcs::Gitlab => "token"@,
    }
}

/// The mapping that a parsed configuration document holds, or the message
/// that refuses a document that is not a mapping.
pub open spec fn document_mapping(document: YamlView, error: Seq<char>) -> Result<Seq<(YamlView, YamlView)>, Seq<char>> {
    match document {
        YamlView::Mapping(m) => Ok(m),
        _ => Err(error),
    }
}

/// What a configuration document parsed out of the text `text` holds:
/// its mapping, or the message that refuses it.
pub open spec fn parsed_document(
    text: Seq<char>,
    parse_error: Seq<char>,
    mapping_error: Seq<char>,
) -> Result<Table, Seq<char>> {
    match parsed_yaml(text) {
        None => Err(parse_error),
        Some(document) => document_mapping(document, mapping_error),
    }
}

/// The hosts configuration that the text of a `gh` hosts file holds: an
/// empty one when the text is blank.
pub open spec fn gh_hosts_of_text(content: Seq<char>) -> Result<Table, Seq<char>> {
    if is_blank_text(content) {
        Ok(Seq::empty())
    } else {
        parsed_document(content, "could not parse hosts config"@, "hosts config is not a YAML mapping"@)
    }
}

/// The full configuration that the text of a `glab` configuration file
/// holds: an empty one when the text is blank; otherwise the text is parsed
/// once the null tags of glab are taken out of it.
pub open spec fn glab_configuration_of_text(content: Seq<char>) -> Result<Table, Seq<char>> {
    if is_blank_text(content) {
        Ok(Seq::empty())
    } else {
        parsed_document(
            without_null_tags(content),
            "could not parse glab config"@,
            "glab config is not a YAML mapping"@,
        )
    }
}

/// The text written for a configuration mapping, or the message that
/// refuses to write it.
pub open spec fn written_document(mapping: Table, error: Seq<char>) -> Result<Seq<char>, Seq<char>> {
    match emitted_yaml(mapping) {
        Some(text) => Ok(text),
        None => Err(error),
    }
}

fn document_text(mapping: &YamlMapping, error: &str) -> (r: Result<String, Failure>)
    ensures
        r is Ok <==> written_document(mapping@, error@) is Ok,
        r matches Ok(text) ==> written_document(mapping@, error@) == Ok::<Seq<char>, Seq<char>>(text@),
        r matches Err(e) ==> written_document(mapping@, error@) == Err::<Seq<char>, Seq<char>>(e.message@),
{
    match emit_yaml(mapping) {
        Some(text) => Ok(text),
        None => Err(Failure::from_text(error)),
    }
}

fn mapping_of_document(document: YamlValue, error: &str) -> (r: Result<YamlMapping, Failure>)
    ensures
        r is Ok <==> document_mapping(document@, error@) is Ok,
        r matches Ok(m) ==> document_mapping(document@, error@) == Ok::<Seq<(YamlView, YamlView)>, Seq<char>>(m@),
        r matches Err(e) ==> document_mapping(document@, error@) == Err::<Seq<(YamlView, YamlView)>, Seq<char>>(e.message@),
{
    match document {
        YamlValue::Mapping(m) => Ok(m),
        _ => Err(Failure::from_text(error)),
    }
}

impl GhClient {
    pub fn token_key() -> (r: &'static str)
        ensures
            r@ == token_key_of(Vcs::Github),
    {
        "oauth_token"
    }

    /// The hosts configuration of `gh` under the user's configuration
    /// directory.
    pub fn hosts_path(config_dir: &str) -> (r: String)
        ensures
            r@ == path_join(path_join(config_dir@, "gh"@), "hosts.yml"@),
    {
        let dir = join(config_dir, "gh");
        join(dir.as_str(), "hosts.yml")
    }

    /// The address of the REST API of a GitHub host, when it is not the
    /// public one.
    pub fn api_base_uri(hostname: &str) -> (r: Option<String>)
        ensures
            r is None <==> hostname@ == "github.com"@,
            r matches Some(uri) ==> uri@ == "https://"@ + hostname@ + "/api/v3"@,
    {
        if crate::text::same_text(hostname, "github.com") {
            None
        } else {
            let mut uri = "https://".to_owned();
            uri.append(hostname);
            uri.append("/api/v3");
            Some(uri)
        }
    }

    /// The hosts configuration held by a parsed hosts file.
    pub fn hosts_from_document(document: YamlValue) -> (r: Result<YamlMapping, Failure>)
        ensures
            r is Ok <==> document_mapping(document@, "hosts config is not a YAML mapping"@) is Ok,
            r matches Ok(m) ==> document_mapping(document@, "hosts config is not a YAML mapping"@)
                == Ok::<Seq<(YamlView, YamlView)>, Seq<char>>(m@),
            r matches Err(e) ==> e.message@ == "hosts config is not a YAML mapping"@,
    {
        mapping_of_document(document, "hosts config is not a YAML mapping")
    }

    /// The text of the `gh` hosts file that holds a hosts configuration.
    pub fn hosts_text(hosts_config: &YamlMapping) -> (r: Result<String, Failure>)
        ensures
            r is Ok <==> written_document(hosts_config@, "could not serialize hosts config"@) is Ok,
            r matches Ok(text) ==> written_document(hosts_config@, "could not serialize hosts config"@)
                == Ok::<Seq<char>, Seq<char>>(text@),
            r matches Err(e) ==> e.message@ == "could not serialize hosts config"@,
    {
        document_text(hosts_config, "could not serialize hosts config")
    }

    /// The hosts configuration held by the text of a `gh` hosts file.
    pub fn hosts_from_text(content: &str) -> (r: Result<YamlMapping, Failure>)
        ensures
            r is Ok <==> gh_hosts_of_text(content@) is Ok,
            r matches Ok(m) ==> gh_hosts_of_text(content@) == Ok::<Table, Seq<char>>(m@),
            r matches Err(e) ==> gh_hosts_of_text(content@) == Err::<Table, Seq<char>>(e.message@),
    {
        if is_blank(content) {
            return Ok(YamlMapping::new());
        }
        match parse_yaml(content) {
            None => Err(Failure::from_text("could not parse hosts config")),
            Some(document) => GhClient::hosts_from_document(document),
        }
    }
}

impl GlClient {
    pub fn token_key() -> (r: &'static str)
        ensures
            r@ == token_key_of(Vcs::Gitlab),
    {
        "token"
    }

    /// The configuration of `glab` under the user's configuration
    /// directory.
    pub fn hosts_path(config_dir: &str) -> (r: String)
        ensures
            r@ == path_join(path_join(config_dir@, "glab-cli"@), "config.yml"@),
    {
        let dir = join(config_dir, "glab-cli");
        join(dir.as_str(), "config.yml")
    }

    /// The text of the `glab` configuration file that holds a full
    /// configuration.
    pub fn configuration_text(full_configuration: &YamlMapping) -> (r: Result<String, Failure>)
        ensures
            r is Ok <==> written_document(full_configuration@, "could not serialize glab config"@) is Ok,
            r matches Ok(text) ==> written_document(full_configuration@, "could not serialize glab config"@)
                == Ok::<Seq<char>, Seq<char>>(text@),
            r matches Err(e) ==> e.message@ == "could not serialize glab config"@,
    {
        document_text(full_configuration, "could not serialize glab config")
    }

    /// The full configuration held by the text of a `glab` configuration
    /// file. The null tags that glab writes are taken out before parsing.
    pub fn configuration_from_text(content: &str) -> (r: Result<YamlMapping, Failure>)
        ensures
            r is Ok <==> glab_configuration_of_text(content@) is Ok,
            r matches Ok(m) ==> glab_configuration_of_text(content@) == Ok::<Table, Seq<char>>(m@),
            r matches Err(e) ==> glab_configuration_of_text(content@) == Err::<Table, Seq<char>>(e.message@),
    {
        if is_blank(content) {
            return Ok(YamlMapping::new());
        }
        let sanitized = strip_glab_null_tags(content);
        match parse_yaml(sanitized.as_str()) {
            None => Err(Failure::from_text("could not parse glab config")),
            Some(document) => GlClient::configuration_from_document(document),
        }
    }

    /// The full configuration held by a parsed `glab` configuration file.
    pub fn configuration_from_document(document: YamlValue) -> (r: Result<YamlMapping, Failure>)
        ensures
            r is Ok <==> document_mapping(document@, "glab config is not a YAML mapping"@) is Ok,
            r matches Ok(m) ==> document_mapping(document@, "glab config is not a YAML mapping"@)
                == Ok::<Seq<(YamlView, YamlView)>, Seq<char>>(m@),
            r matches Err(e) ==> e.message@ == "glab config is not a YAML mapping"@,
    {
        mapping_of_document(document, "glab config is not a YAML mapping")
    }
}

/// The key under which the command line of `vcs` keeps host tokens.
pub fn token_key(vcs: Vcs) -> (r: &'static str)
    ensures
        r@ == token_key_of(vcs),
{
    match vcs {
        Vcs::Github => GhClient::token_key(),
        Vcs::Gitlab => GlClient::token_key(),
    }
}

/// Neither command line keeps its token under the key of the user name.
pub proof fn lemma_token_keys_are_not_user(vcs: Vcs)
    ensures
        token_key_of(vcs) != "user"@,
{
    reveal_strlit("oauth_token");
    reveal_strlit("token");
    reveal_strlit("user");
    assert(token_key_of(vcs).len() != "user"@.len());
}

} // verus!
