# kalamarnica

A command line tool that keeps several VCS identities (host, user, git
transport and a per-identity token) for GitHub and GitLab, and switches the
`gh` / `glab` command lines between them.

## Layout

- `src/` is the library, written in Verus and verified:
  - `vcs`, `transport`, `context`, `apply_context`, `validate_name`: the data
    of a context and the checks on what the user types;
  - `storage`, `names`, `path`: where contexts and tokens are kept, and the
    order in which they are listed;
  - `yaml`, `hosts`, `gl_config`, `clients`: the model of the `gh` and `glab`
    host configurations, how their files are read and written, and every
    edit the tool makes to them;
  - `yaml_text`: the calls into `serde_yaml` that parse and write YAML;
  - `text`: the string helpers the rest is built on;
  - `cmd/`: each command as a state machine that, given its progress and the
    answer to its last request, returns its next progress and what it asks
    for next (`cmd/protocol`).
- `app/` is the program around the library: argument parsing, the file
  system, TOML (de)serialisation, the GitHub and GitLab APIs, git,
  and the loop that answers the requests of a command.
- `tests/` runs the library on concrete values.
