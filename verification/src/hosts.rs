use vstd::prelude::*;

use crate::failure::Failure;
use crate::yaml::{
    YamlMapping, YamlValue, YamlView, Table, insert, lookup, table_at, text_at, lemma_entries_view,
    lemma_index_from_range, lemma_insert_lookup, pair_view, string_value,
};

verus! {

/// The mapping under `key`, a new empty one if there is none, or `None`
/// when the value there is not a mapping.
pub open spec fn table_or_empty(t: Table, key: Seq<char>) -> Option<Table> {
    match lookup(t, key) {
        None => Some(Seq::empty()),
        Some(YamlView::Mapping(inner)) => Some(inner),
        Some(_) => None,
    }
}

/// The hosts configuration after `write_host_credentials`: the host entry
/// names `user` as its user and holds `token` under `token_key`, and the
/// host's `users` mapping holds an entry for `user` with that token.
/// `None` when the host entry or its `users` entry is not a mapping.
pub open spec fn with_credentials(
    hosts: Table,
    hostname: Seq<char>,
    user: Seq<char>,
    token: Seq<char>,
    token_key: Seq<char>,
) -> Option<Table> {
    match table_or_empty(hosts, hostname) {
        None => None,
        Some(host) => {
            let host1 = insert(insert(host, "user"@, YamlView::Text(user)), token_key, YamlView::Text(token));
            match table_or_empty(host1, "users"@) {
                None => None,
                Some(users) => {
                    let entry = seq![(YamlView::Text(token_key), YamlView::Text(token))];
                    let users1 = insert(users, user, YamlView::Mapping(entry));
                    let host2 = insert(host1, "users"@, YamlView::Mapping(users1));
                    Some(insert(hosts, hostname, YamlView::Mapping(host2)))
                },
            }
        },
    }
}

/// Why `write_host_credentials` refuses a configuration.
pub open spec fn credentials_error(hosts: Table, hostname: Seq<char>) -> Seq<char> {
    if table_or_empty(hosts, hostname) is None {
        "host entry is not a mapping"@
    } else {
        "users entry is not a mapping"@
    }
}

/// What `auth_status` reports for a host.
pub open spec fn auth_status_text(hosts: Table, hostname: Seq<char>) -> Seq<char> {
    match table_at(hosts, hostname) {
        Some(host) => "Logged in to "@ + hostname + " account "@ + (match text_at(host, "user"@) {
            Some(u) => u,
            None => "unknown"@,
        }),
        None => "You are not logged into any hosts on "@ + hostname,
    }
}

/// The line that `auth_status` shows for `user` logged in on `hostname`.
pub open spec fn logged_in_line(hostname: Seq<char>, user: Seq<char>) -> Seq<char> {
    "Logged in to "@ + hostname + " account "@ + user
}

/// The hosts configuration after `auth_switch` makes `user` the active
/// account of `hostname`, or the message that refuses the switch.
pub open spec fn switched(hosts: Table, hostname: Seq<char>, user: Seq<char>, token_key: Seq<char>) -> Result<Table, Seq<char>> {
    match table_at(hosts, hostname) {
        None => Err("not logged in to "@ + hostname),
        Some(host) => match table_at(host, "users"@) {
            None => Err("no users configured for "@ + hostname),
            Some(users) => if lookup(users, user) is None {
                Err("account "@ + user + " not found on "@ + hostname)
            } else {
                let host1 = insert(host, "user"@, YamlView::Text(user));
                let host2 = match table_at(users, user) {
                    Some(entry) => match text_at(entry, token_key) {
                        Some(token) => insert(host1, token_key, YamlView::Text(token)),
                        None => host1,
                    },
                    None => host1,
                };
                Ok(insert(hosts, hostname, YamlView::Mapping(host2)))
            },
        },
    }
}

/// The token that `api_user` sends for `hostname`, or the message that
/// refuses the request.
pub open spec fn api_token_of(hosts: Table, hostname: Seq<char>, token_key: Seq<char>) -> Result<Seq<char>, Seq<char>> {
    match table_at(hosts, hostname) {
        None => Err("not logged in to "@ + hostname),
        Some(host) => match text_at(host, token_key) {
            Some(token) => Ok(token),
            None => Err("no token found for "@ + hostname + " (token may be in system keyring)"@),
        },
    }
}

/// Storing twice under a key that was absent is storing once.
proof fn lemma_insert_twice(t: Table, key: Seq<char>, a: YamlView, b: YamlView)
    requires
        lookup(t, key) is None,
    ensures
        insert(insert(t, key, a), key, b) == insert(t, key, b),
{
    lemma_index_from_range(t, key, 0);
    crate::yaml::lemma_index_from_push(t, (YamlView::Text(key), a), key, 0);
    let t1 = insert(t, key, a);
    assert(insert(t1, key, b) =~= insert(t, key, b));
}

/// Replacing the value of the entry found for `key` is storing under `key`.
proof fn lemma_replace_found(es: Seq<(YamlValue, YamlValue)>, key: Seq<char>, i: int)
    requires
        0 <= i < es.len(),
        crate::yaml::find_key(crate::yaml::entries_view(es), key) == i,
    ensures
        forall|m: YamlMapping| #[trigger] crate::yaml::entries_view(es.update(i, (es[i].0, YamlValue::Mapping(m))))
            == insert(crate::yaml::entries_view(es), key, YamlView::Mapping(m@)),
{
    lemma_entries_view(es);
    assert forall|m: YamlMapping| #[trigger] crate::yaml::entries_view(es.update(i, (es[i].0, YamlValue::Mapping(m))))
        == insert(crate::yaml::entries_view(es), key, YamlView::Mapping(m@)) by {
        crate::yaml::lemma_entries_view_update(es, i, (es[i].0, YamlValue::Mapping(m)));
        assert(crate::yaml::entries_view(es)[i] == pair_view(es[i]));
    }
}

/// Finds or creates the mapping stored under `key`.
fn ensure_mapping_entry<'a>(config: &'a mut YamlMapping, key: &str, error_text: &str) -> (r: Result<&'a mut YamlMapping, Failure>)
    ensures
        r is Ok <==> table_or_empty(old(config)@, key@) is Some,
        r matches Ok(m) ==> ({
            &&& table_or_empty(old(config)@, key@) == Some(m@)
            &&& final(config)@ == insert(old(config)@, key@, YamlView::Mapping(final(m)@))
        }),
        r matches Err(e) ==> e.message@ == error_text@ && final(config)@ == old(config)@,
{
    let ghost original = config@;
    let existed = config.contains_key(key);
    if !existed {
        config.insert(key, YamlValue::Mapping(YamlMapping::new()));
        proof {
            lemma_insert_lookup(original, key@, YamlView::Mapping(Seq::empty()), key@);
            assert forall|v: YamlView| insert(config@, key@, v) == insert(original, key@, v) by {
                lemma_insert_twice(original, key@, YamlView::Mapping(Seq::empty()), v);
            }
        }
    }
    let ghost pre = config@;
    let ghost pre_entries = config.entries@;
    proof {
        lemma_entries_view(config.entries@);
        lemma_index_from_range(config@, key@, 0);
    }
    let i = match config.find(key) {
        Some(i) => i,
        None => {
            proof {
                assert(false);
            }
            0
        },
    };
    assert(config@[i as int] == pair_view(config.entries@[i as int]));
    proof {
        lemma_replace_found(pre_entries, key@, i as int);
    }
    if config.entries[i].1.as_mapping().is_none() {
        proof {
            if !existed {
                assert(lookup(pre, key@) == Some(YamlView::Mapping(Seq::empty())));
                assert(false);
            }
        }
        return Err(Failure::from_text(error_text));
    }
    let entry = &mut config.entries[i];
    match &mut entry.1 {
        YamlValue::Mapping(m) => Ok(m),
        _ => {
            proof {
                assert(false);
            }
            Err(Failure::from_text(error_text))
        },
    }
}

/// Finds the entry of `hostname` in a hosts configuration, creating an
/// empty one if there is none.
pub fn ensure_host_entry<'a>(hosts_config: &'a mut YamlMapping, hostname: &str) -> (r: Result<&'a mut YamlMapping, Failure>)
    ensures
        r is Ok <==> table_or_empty(old(hosts_config)@, hostname@) is Some,
        r matches Ok(m) ==> ({
            &&& table_or_empty(old(hosts_config)@, hostname@) == Some(m@)
            &&& final(hosts_config)@ == insert(old(hosts_config)@, hostname@, YamlView::Mapping(final(m)@))
        }),
        r matches Err(e) ==> e.message@ == "host entry is not a mapping"@
            && final(hosts_config)@ == old(hosts_config)@,
{
    ensure_mapping_entry(hosts_config, hostname, "host entry is not a mapping")
}

/// Finds the `users` mapping of a host entry, creating an empty one if
/// there is none.
pub fn ensure_users_map<'a>(host_mapping: &'a mut YamlMapping) -> (r: Result<&'a mut YamlMapping, Failure>)
    ensures
        r is Ok <==> table_or_empty(old(host_mapping)@, "users"@) is Some,
        r matches Ok(m) ==> ({
            &&& table_or_empty(old(host_mapping)@, "users"@) == Some(m@)
            &&& final(host_mapping)@ == insert(old(host_mapping)@, "users"@, YamlView::Mapping(final(m)@))
        }),
        r matches Err(e) ==> e.message@ == "users entry is not a mapping"@
            && final(host_mapping)@ == old(host_mapping)@,
{
    ensure_mapping_entry(host_mapping, "users", "users entry is not a mapping")
}

/// Records `user` and `token` as the credentials of `vcs_hostname`: the
/// host entry names the user and holds the token under `token_key`, and
/// the host's `users` mapping keeps the token of that user.
pub fn write_host_credentials(
    hosts_config: YamlMapping,
    vcs_hostname: &str,
    user: &str,
    token: &str,
    token_key: &str,
) -> (r: Result<YamlMapping, Failure>)
    ensures
        r is Ok <==> with_credentials(hosts_config@, vcs_hostname@, user@, token@, token_key@) is Some,
        r matches Ok(m) ==> with_credentials(hosts_config@, vcs_hostname@, user@, token@, token_key@)
            == Some(m@),
        r matches Err(e) ==> e.message@ == credentials_error(hosts_config@, vcs_hostname@),
{
    let mut hosts = hosts_config;
    let host_mapping = match ensure_host_entry(&mut hosts, vcs_hostname) {
        Ok(m) => m,
        Err(e) => return Err(e),
    };
    host_mapping.insert("user", string_value(user));
    host_mapping.insert(token_key, string_value(token));
    let users_mapping = match ensure_users_map(host_mapping) {
        Ok(m) => m,
        Err(e) => return Err(e),
    };
    let mut user_entry = YamlMapping::new();
    user_entry.insert(token_key, string_value(token));
    users_mapping.insert(user, YamlValue::Mapping(user_entry));
    Ok(hosts)
}

/// The mapping stored under `key`, if the value there is a mapping.
fn mapping_at<'a>(config: &'a YamlMapping, key: &str) -> (r: Option<&'a YamlMapping>)
    ensures
        r is Some <==> table_at(config@, key@) is Some,
        r matches Some(m) ==> table_at(config@, key@) == Some(m@),
{
    match config.get(key) {
        Some(v) => v.as_mapping(),
        None => None,
    }
}

/// The text stored under `key`, if the value there is a text.
fn text_value_at<'a>(config: &'a YamlMapping, key: &str) -> (r: Option<&'a String>)
    ensures
        r is Some <==> text_at(config@, key@) is Some,
        r matches Some(s) ==> text_at(config@, key@) == Some(s@),
{
    match config.get(key) {
        Some(v) => v.as_text(),
        None => None,
    }
}

/// What the VCS command line reports on whether anyone is logged in to
/// `vcs_hostname`, as read from its hosts configuration.
pub fn auth_status(hosts_config: &YamlMapping, vcs_hostname: &str) -> (r: String)
    ensures
        r@ == auth_status_text(hosts_config@, vcs_hostname@),
{
    match mapping_at(hosts_config, vcs_hostname) {
        Some(host_mapping) => {
            let current_user = match text_value_at(host_mapping, "user") {
                Some(u) => u.as_str(),
                None => "unknown",
            };
            let mut line = "Logged in to ".to_owned();
            line.append(vcs_hostname);
            line.append(" account ");
            line.append(current_user);
            line
        },
        None => {
            let mut line = "You are not logged into any hosts on ".to_owned();
            line.append(vcs_hostname);
            line
        },
    }
}

/// Makes `user` the active account of `vcs_hostname`, bringing back the
/// token stored for that user.
pub fn auth_switch(hosts_config: YamlMapping, vcs_hostname: &str, user: &str, token_key: &str) -> (r: Result<YamlMapping, Failure>)
    ensures
        r is Ok <==> switched(hosts_config@, vcs_hostname@, user@, token_key@) is Ok,
        r matches Ok(m) ==> switched(hosts_config@, vcs_hostname@, user@, token_key@) == Ok::<Table, Seq<char>>(m@),
        r matches Err(e) ==> switched(hosts_config@, vcs_hostname@, user@, token_key@) == Err::<Table, Seq<char>>(e.message@),
{
    let user_token: Option<String> = {
        let host_mapping = match mapping_at(&hosts_config, vcs_hostname) {
            Some(m) => m,
            None => {
                let mut message = "not logged in to ".to_owned();
                message.append(vcs_hostname);
                return Err(Failure::new(message));
            },
        };
        let users_mapping = match mapping_at(host_mapping, "users") {
            Some(m) => m,
            None => {
                let mut message = "no users configured for ".to_owned();
                message.append(vcs_hostname);
                return Err(Failure::new(message));
            },
        };
        if !users_mapping.contains_key(user) {
            let mut message = "account ".to_owned();
            message.append(user);
            message.append(" not found on ");
            message.append(vcs_hostname);
            return Err(Failure::new(message));
        }
        match mapping_at(users_mapping, user) {
            Some(user_entry) => match text_value_at(user_entry, token_key) {
                Some(t) => Some(t.clone()),
                None => None,
            },
            None => None,
        }
    };
    let mut hosts = hosts_config;
    let host_mapping = match ensure_host_entry(&mut hosts, vcs_hostname) {
        Ok(m) => m,
        Err(e) => {
            proof {
                assert(false);
            }
            return Err(e);
        },
    };
    host_mapping.insert("user", string_value(user));
    match user_token {
        Some(stored_token) => host_mapping.insert(token_key, YamlValue::Text(stored_token)),
        None => {},
    }
    Ok(hosts)
}

/// The token that authenticates API requests to `hostname`.
pub fn api_token(hosts_config: &YamlMapping, hostname: &str, token_key: &str) -> (r: Result<String, Failure>)
    ensures
        r is Ok <==> api_token_of(hosts_config@, hostname@, token_key@) is Ok,
        r matches Ok(t) ==> api_token_of(hosts_config@, hostname@, token_key@) == Ok::<Seq<char>, Seq<char>>(t@),
        r matches Err(e) ==> api_token_of(hosts_config@, hostname@, token_key@) == Err::<Seq<char>, Seq<char>>(e.message@),
{
    let host_mapping = match mapping_at(hosts_config, hostname) {
        Some(m) => m,
        None => {
            let mut message = "not logged in to ".to_owned();
            message.append(hostname);
            return Err(Failure::new(message));
        },
    };
    match text_value_at(host_mapping, token_key) {
        Some(t) => Ok(t.clone()),
        None => {
            let mut message = "no token found for ".to_owned();
            message.append(hostname);
            message.append(" (token may be in system keyring)");
            Err(Failure::new(message))
        },
    }
}

proof fn lemma_user_keys_differ()
    ensures
        "user"@ != "users"@,
{
    reveal_strlit("user");
    reveal_strlit("users");
    assert("user"@.len() != "users"@.len());
}

/// The text stored in a mapping of one entry.
proof fn lemma_single_entry(key: Seq<char>, value: Seq<char>)
    ensures
        text_at(seq![(YamlView::Text(key), YamlView::Text(value))], key) == Some(value),
{
    let t = seq![(YamlView::Text(key), YamlView::Text(value))];
    assert(crate::yaml::key_is(t[0].0, key));
    assert(crate::yaml::index_from(t, key, 0) == 0);
}

/// Facts about the host entry that `write_host_credentials` leaves.
proof fn lemma_credentials_host(
    hosts: Table,
    hostname: Seq<char>,
    user: Seq<char>,
    token: Seq<char>,
    token_key: Seq<char>,
)
    requires
        with_credentials(hosts, hostname, user, token, token_key) is Some,
        token_key != "user"@,
    ensures
        ({
            let after = with_credentials(hosts, hostname, user, token, token_key)->0;
            &&& table_at(after, hostname) is Some
            &&& text_at(table_at(after, hostname)->0, "user"@) == Some(user)
            &&& text_at(table_at(after, hostname)->0, token_key) == Some(token)
            &&& table_at(table_at(after, hostname)->0, "users"@) is Some
            &&& text_at(
                table_at(table_at(table_at(after, hostname)->0, "users"@)->0, user)->0,
                token_key,
            ) == Some(token)
            &&& table_at(table_at(table_at(after, hostname)->0, "users"@)->0, user) is Some
            &&& forall|other: Seq<char>| other != user ==> lookup(table_at(table_at(after, hostname)->0, "users"@)->0, other)
                == lookup(table_or_empty(table_or_empty(hosts, hostname)->0, "users"@)->0, other)
        }),
{
    lemma_user_keys_differ();
    let host = table_or_empty(hosts, hostname)->0;
    let host0 = insert(host, "user"@, YamlView::Text(user));
    let host1 = insert(host0, token_key, YamlView::Text(token));
    let users = table_or_empty(host1, "users"@)->0;
    let entry = seq![(YamlView::Text(token_key), YamlView::Text(token))];
    let users1 = insert(users, user, YamlView::Mapping(entry));
    let host2 = insert(host1, "users"@, YamlView::Mapping(users1));
    let after = insert(hosts, hostname, YamlView::Mapping(host2));
    lemma_insert_lookup(hosts, hostname, YamlView::Mapping(host2), hostname);
    lemma_insert_lookup(host1, "users"@, YamlView::Mapping(users1), "user"@);
    lemma_insert_lookup(host1, "users"@, YamlView::Mapping(users1), token_key);
    lemma_insert_lookup(host0, token_key, YamlView::Text(token), "user"@);
    lemma_insert_lookup(host0, token_key, YamlView::Text(token), "users"@);
    lemma_insert_lookup(host, "user"@, YamlView::Text(user), "users"@);
    lemma_insert_lookup(users, user, YamlView::Mapping(entry), user);
    lemma_single_entry(token_key, token);
    if token_key == "users"@ {
        assert(lookup(host1, "users"@) == Some(YamlView::Text(token)));
    }
    assert forall|other: Seq<char>| other != user implies lookup(users1, other) == lookup(
        table_or_empty(host, "users"@)->0,
        other,
    ) by {
        lemma_insert_lookup(users, user, YamlView::Mapping(entry), other);
    }
}

/// Once credentials are written for a host, the host reports that user as
/// logged in.
pub proof fn law_status_after_credentials(
    hosts: Table,
    hostname: Seq<char>,
    user: Seq<char>,
    token: Seq<char>,
    token_key: Seq<char>,
)
    requires
        with_credentials(hosts, hostname, user, token, token_key) is Some,
        token_key != "user"@,
    ensures
        auth_status_text(with_credentials(hosts, hostname, user, token, token_key)->0, hostname)
            == logged_in_line(hostname, user),
{
    lemma_credentials_host(hosts, hostname, user, token, token_key);
}

/// Once credentials are written for a host, API requests to the host use
/// the token that was written.
pub proof fn law_token_after_credentials(
    hosts: Table,
    hostname: Seq<char>,
    user: Seq<char>,
    token: Seq<char>,
    token_key: Seq<char>,
)
    requires
        with_credentials(hosts, hostname, user, token, token_key) is Some,
        token_key != "user"@,
    ensures
        api_token_of(with_credentials(hosts, hostname, user, token, token_key)->0, hostname, token_key)
            == Ok::<Seq<char>, Seq<char>>(token),
{
    lemma_credentials_host(hosts, hostname, user, token, token_key);
}

/// Writing credentials for one host leaves every other host as it was.
pub proof fn law_credentials_leave_other_hosts(
    hosts: Table,
    hostname: Seq<char>,
    user: Seq<char>,
    token: Seq<char>,
    token_key: Seq<char>,
    other_host: Seq<char>,
)
    requires
        with_credentials(hosts, hostname, user, token, token_key) is Some,
        other_host != hostname,
    ensures
        lookup(with_credentials(hosts, hostname, user, token, token_key)->0, other_host)
            == lookup(hosts, other_host),
{
    let after = with_credentials(hosts, hostname, user, token, token_key)->0;
    let host2 = table_at(after, hostname);
    let host = table_or_empty(hosts, hostname)->0;
    let host1 = insert(insert(host, "user"@, YamlView::Text(user)), token_key, YamlView::Text(token));
    let users = table_or_empty(host1, "users"@)->0;
    let entry = seq![(YamlView::Text(token_key), YamlView::Text(token))];
    let users1 = insert(users, user, YamlView::Mapping(entry));
    let h2 = insert(host1, "users"@, YamlView::Mapping(users1));
    lemma_insert_lookup(hosts, hostname, YamlView::Mapping(h2), other_host);
}

/// Switching back to an account whose credentials were written earlier
/// brings back that account and its token, though another account of the
/// same host was written since.
pub proof fn law_switch_restores_account(
    hosts: Table,
    hostname: Seq<char>,
    first_user: Seq<char>,
    first_token: Seq<char>,
    second_user: Seq<char>,
    second_token: Seq<char>,
    token_key: Seq<char>,
)
    requires
        with_credentials(hosts, hostname, first_user, first_token, token_key) is Some,
        with_credentials(
            with_credentials(hosts, hostname, first_user, first_token, token_key)->0,
            hostname,
            second_user,
            second_token,
            token_key,
        ) is Some,
        first_user != second_user,
        token_key != "user"@,
    ensures
        ({
            let written = with_credentials(
                with_credentials(hosts, hostname, first_user, first_token, token_key)->0,
                hostname,
                second_user,
                second_token,
                token_key,
            )->0;
            &&& switched(written, hostname, first_user, token_key) is Ok
            &&& api_token_of(switched(written, hostname, first_user, token_key)->Ok_0, hostname, token_key)
                == Ok::<Seq<char>, Seq<char>>(first_token)
            &&& auth_status_text(switched(written, hostname, first_user, token_key)->Ok_0, hostname)
                == logged_in_line(hostname, first_user)
        }),
{
    lemma_user_keys_differ();
    let once = with_credentials(hosts, hostname, first_user, first_token, token_key)->0;
    let twice = with_credentials(once, hostname, second_user, second_token, token_key)->0;
    lemma_credentials_host(hosts, hostname, first_user, first_token, token_key);
    lemma_credentials_host(once, hostname, second_user, second_token, token_key);
    let host_once = table_at(once, hostname)->0;
    let host_twice = table_at(twice, hostname)->0;
    assert(table_or_empty(once, hostname) == Some(host_once));
    assert(table_or_empty(host_once, "users"@) == table_at(host_once, "users"@));
    let users_twice = table_at(host_twice, "users"@)->0;
    assert(lookup(users_twice, first_user) == lookup(table_at(host_once, "users"@)->0, first_user));
    let entry = table_at(users_twice, first_user)->0;
    assert(text_at(entry, token_key) == Some(first_token));
    let host1 = insert(host_twice, "user"@, YamlView::Text(first_user));
    let host2 = insert(host1, token_key, YamlView::Text(first_token));
    let switched_hosts = insert(twice, hostname, YamlView::Mapping(host2));
    assert(switched(twice, hostname, first_user, token_key) == Ok::<Table, Seq<char>>(switched_hosts));
    lemma_insert_lookup(twice, hostname, YamlView::Mapping(host2), hostname);
    lemma_insert_lookup(host1, token_key, YamlView::Text(first_token), token_key);
    lemma_insert_lookup(host1, token_key, YamlView::Text(first_token), "user"@);
    lemma_insert_lookup(host_twice, "user"@, YamlView::Text(first_user), "user"@);
}

/// Once credentials are written for a host, its `users` mapping holds for
/// that user exactly the token written, under the token key; and switching
/// the host to that user then succeeds, reporting the user logged in and
/// using the token written.
pub proof fn law_users_entry_after_credentials(
    hosts: Table,
    hostname: Seq<char>,
    user: Seq<char>,
    token: Seq<char>,
    token_key: Seq<char>,
)
    requires
        with_credentials(hosts, hostname, user, token, token_key) is Some,
        token_key != "user"@,
    ensures
        ({
            let written = with_credentials(hosts, hostname, user, token, token_key)->0;
            &&& lookup(table_at(table_at(written, hostname)->0, "users"@)->0, user) == Some(
                YamlView::Mapping(seq![(YamlView::Text(token_key), YamlView::Text(token))]),
            )
            &&& switched(written, hostname, user, token_key) is Ok
            &&& auth_status_text(switched(written, hostname, user, token_key)->Ok_0, hostname)
                == logged_in_line(hostname, user)
            &&& api_token_of(switched(written, hostname, user, token_key)->Ok_0, hostname, token_key)
                == Ok::<Seq<char>, Seq<char>>(token)
        }),
{
    lemma_user_keys_differ();
    lemma_single_entry(token_key, token);
    lemma_credentials_host(hosts, hostname, user, token, token_key);
    let host = table_or_empty(hosts, hostname)->0;
    let host0 = insert(host, "user"@, YamlView::Text(user));
    let host1 = insert(host0, token_key, YamlView::Text(token));
    let users = table_or_empty(host1, "users"@)->0;
    let entry = seq![(YamlView::Text(token_key), YamlView::Text(token))];
    let users1 = insert(users, user, YamlView::Mapping(entry));
    let host2 = insert(host1, "users"@, YamlView::Mapping(users1));
    let written = insert(hosts, hostname, YamlView::Mapping(host2));
    lemma_insert_lookup(hosts, hostname, YamlView::Mapping(host2), hostname);
    lemma_insert_lookup(host1, "users"@, YamlView::Mapping(users1), "users"@);
    lemma_insert_lookup(users, user, YamlView::Mapping(entry), user);
    assert(table_at(written, hostname) == Some(host2));
    assert(table_at(host2, "users"@) == Some(users1));
    let host_a = insert(host2, "user"@, YamlView::Text(user));
    let host_b = insert(host_a, token_key, YamlView::Text(token));
    let result = insert(written, hostname, YamlView::Mapping(host_b));
    assert(table_at(users1, user) == Some(entry));
    assert(switched(written, hostname, user, token_key) == Ok::<Table, Seq<char>>(result));
    lemma_insert_lookup(written, hostname, YamlView::Mapping(host_b), hostname);
    lemma_insert_lookup(host_a, token_key, YamlView::Text(token), token_key);
    lemma_insert_lookup(host_a, token_key, YamlView::Text(token), "user"@);
    lemma_insert_lookup(host2, "user"@, YamlView::Text(user), "user"@);
}

/// Writing credentials changes, in the entry of the host, only the user,
/// the token and the entry of that user under `users`: every other key of
/// the host entry, and the entry of every other user, stay as they were.
pub proof fn law_credentials_keep_other_entries(
    hosts: Table,
    hostname: Seq<char>,
    user: Seq<char>,
    token: Seq<char>,
    token_key: Seq<char>,
    key: Seq<char>,
    other_user: Seq<char>,
)
    requires
        with_credentials(hosts, hostname, user, token, token_key) is Some,
        token_key != "user"@,
    ensures
        ({
            let before = table_or_empty(hosts, hostname)->0;
            let after = table_at(with_credentials(hosts, hostname, user, token, token_key)->0, hostname)->0;
            &&& key != "user"@ && key != token_key && key != "users"@ ==> lookup(after, key) == lookup(before, key)
            &&& other_user != user ==> lookup(table_at(after, "users"@)->0, other_user) == lookup(
                table_or_empty(before, "users"@)->0,
                other_user,
            )
        }),
{
    lemma_user_keys_differ();
    lemma_credentials_host(hosts, hostname, user, token, token_key);
    let host = table_or_empty(hosts, hostname)->0;
    let host0 = insert(host, "user"@, YamlView::Text(user));
    let host1 = insert(host0, token_key, YamlView::Text(token));
    let users = table_or_empty(host1, "users"@)->0;
    let entry = seq![(YamlView::Text(token_key), YamlView::Text(token))];
    let users1 = insert(users, user, YamlView::Mapping(entry));
    let host2 = insert(host1, "users"@, YamlView::Mapping(users1));
    lemma_insert_lookup(hosts, hostname, YamlView::Mapping(host2), hostname);
    lemma_insert_lookup(host1, "users"@, YamlView::Mapping(users1), key);
    lemma_insert_lookup(host0, token_key, YamlView::Text(token), key);
    lemma_insert_lookup(host, "user"@, YamlView::Text(user), key);
}

/// Switching the account of a host changes only the user and the token
/// of that host's entry: every other host, and every other key of the
/// host's entry (its `users` among them), stay as they were.
pub proof fn law_switch_keeps_other_entries(
    hosts: Table,
    hostname: Seq<char>,
    user: Seq<char>,
    token_key: Seq<char>,
    other_host: Seq<char>,
    key: Seq<char>,
)
    requires
        switched(hosts, hostname, user, token_key) is Ok,
    ensures
        other_host != hostname ==> lookup(switched(hosts, hostname, user, token_key)->Ok_0, other_host) == lookup(
            hosts,
            other_host,
        ),
        key != "user"@ && key != token_key ==> lookup(
            table_at(switched(hosts, hostname, user, token_key)->Ok_0, hostname)->0,
            key,
        ) == lookup(table_at(hosts, hostname)->0, key),
{
    let host = table_at(hosts, hostname)->0;
    let users = table_at(host, "users"@)->0;
    let host1 = insert(host, "user"@, YamlView::Text(user));
    let host2 = match table_at(users, user) {
        Some(entry) => match text_at(entry, token_key) {
            Some(token) => insert(host1, token_key, YamlView::Text(token)),
            None => host1,
        },
        None => host1,
    };
    lemma_insert_lookup(hosts, hostname, YamlView::Mapping(host2), other_host);
    lemma_insert_lookup(hosts, hostname, YamlView::Mapping(host2), hostname);
    lemma_insert_lookup(host, "user"@, YamlView::Text(user), key);
    if let Some(entry) = table_at(users, user) {
        if let Some(token) = text_at(entry, token_key) {
            lemma_insert_lookup(host1, token_key, YamlView::Text(token), key);
        }
    }
}

/// Whether a value is absent or a mapping.
pub open spec fn absent_or_mapping(value: Option<YamlView>) -> bool {
    match value {
        None => true,
        Some(YamlView::Mapping(_)) => true,
        Some(_) => false,
    }
}

/// Writing credentials succeeds on every hosts configuration whose entry
/// for the host is absent or a mapping whose `users` key is absent or a
/// mapping, as a host entry that the VCS command line wrote is; afterwards
/// the host entry names the user, holds the token under the token key, and
/// its `users` mapping holds for that user exactly that token.
pub proof fn law_credentials_written_on_ordinary_entries(
    hosts_config: YamlMapping,
    hostname: &str,
    user: &str,
    token: &str,
    token_key: &str,
    r: Result<YamlMapping, Failure>,
)
    requires
        call_ensures(write_host_credentials, (hosts_config, hostname, user, token, token_key), r),
        token_key@ != "user"@,
        token_key@ != "users"@,
        absent_or_mapping(lookup(hosts_config@, hostname@)),
        lookup(hosts_config@, hostname@) matches Some(YamlView::Mapping(entry)) ==> absent_or_mapping(
            lookup(entry, "users"@),
        ),
    ensures
        r is Ok,
        r matches Ok(written) ==> ({
            let entry = table_at(written@, hostname@)->0;
            &&& table_at(written@, hostname@) is Some
            &&& lookup(entry, "user"@) == Some(YamlView::Text(user@))
            &&& lookup(entry, token_key@) == Some(YamlView::Text(token@))
            &&& table_at(entry, "users"@) is Some
            &&& lookup(table_at(entry, "users"@)->0, user@) == Some(
                YamlView::Mapping(seq![(YamlView::Text(token_key@), YamlView::Text(token@))]),
            )
        }),
{
    let hosts = hosts_config@;
    let h = hostname@;
    let k = token_key@;
    lemma_user_keys_differ();
    let host = table_or_empty(hosts, h)->0;
    let host0 = insert(host, "user"@, YamlView::Text(user@));
    let host1 = insert(host0, k, YamlView::Text(token@));
    lemma_insert_lookup(host, "user"@, YamlView::Text(user@), "users"@);
    lemma_insert_lookup(host0, k, YamlView::Text(token@), "users"@);
    assert(lookup(host1, "users"@) == lookup(host, "users"@));
    assert(with_credentials(hosts, h, user@, token@, k) is Some);
    lemma_credentials_host(hosts, h, user@, token@, k);
    law_users_entry_after_credentials(hosts, h, user@, token@, k);
}

} // verus!
