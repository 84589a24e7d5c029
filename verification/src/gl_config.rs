use vstd::prelude::*;

use crate::failure::Failure;
use crate::yaml::{
    YamlMapping, YamlValue, YamlView, Table, insert, lookup, lemma_insert_lookup, string_value,
};

verus! {

/// The tag that the glab command line puts before a token it may also keep
/// in a keychain.
pub open spec fn null_tag() -> Seq<char> {
    seq!['!', '!', 'n', 'u', 'l', 'l', ' ']
}

/// Whether the null tag starts at position `i` of `s`.
pub open spec fn tag_at(s: Seq<char>, i: int) -> bool {
    0 <= i && i + 7 <= s.len() && s.subrange(i, i + 7) == null_tag()
}

/// The text with every null tag taken out, the tags being found from left
/// to right without overlap.
pub open spec fn without_null_tags(s: Seq<char>) -> Seq<char>
    decreases s.len(),
{
    if s.len() == 0 {
        s
    } else if tag_at(s, 0) {
        without_null_tags(s.subrange(7, s.len() as int))
    } else {
        seq![s[0]] + without_null_tags(s.subrange(1, s.len() as int))
    }
}

fn tag_starts_at(chars: &Vec<char>, i: usize) -> (r: bool)
    requires
        i <= chars.len(),
    ensures
        r == tag_at(chars@, i as int),
{
    if chars.len() - i < 7 {
        return false;
    }
    let found = chars[i] == '!' && chars[i + 1] == '!' && chars[i + 2] == 'n' && chars[i + 3] == 'u'
        && chars[i + 4] == 'l' && chars[i + 5] == 'l' && chars[i + 6] == ' ';
    proof {
        if found {
            assert(chars@.subrange(i as int, i + 7) =~= null_tag());
        } else {
            if chars@.subrange(i as int, i + 7) == null_tag() {
                assert(chars@.subrange(i as int, i + 7)[0] == chars@[i as int]);
                assert(chars@.subrange(i as int, i + 7)[1] == chars@[i + 1]);
                assert(chars@.subrange(i as int, i + 7)[2] == chars@[i + 2]);
                assert(chars@.subrange(i as int, i + 7)[3] == chars@[i + 3]);
                assert(chars@.subrange(i as int, i + 7)[4] == chars@[i + 4]);
                assert(chars@.subrange(i as int, i + 7)[5] == chars@[i + 5]);
                assert(chars@.subrange(i as int, i + 7)[6] == chars@[i + 6]);
            }
        }
    }
    found
}

/// Removes the `!!null ` tags that the glab command line writes before
/// tokens it may keep in a keychain, so that the token text survives YAML
/// parsing.
pub fn strip_glab_null_tags(configuration_content: &str) -> (r: String)
    ensures
        r@ == without_null_tags(configuration_content@),
{
    let chars = crate::text::chars_of(configuration_content);
    let mut kept: Vec<char> = Vec::new();
    let mut i: usize = 0;
    assert(chars@.subrange(0, chars.len() as int) =~= chars@);
    assert(kept@ + without_null_tags(chars@) =~= without_null_tags(chars@));
    while i < chars.len()
        invariant
            i <= chars.len(),
            chars@ == configuration_content@,
            kept@ + without_null_tags(chars@.subrange(i as int, chars.len() as int))
                == without_null_tags(chars@),
        decreases chars.len() - i,
    {
        let ghost rest = chars@.subrange(i as int, chars.len() as int);
        if tag_starts_at(&chars, i) {
            assert(tag_at(rest, 0)) by {
                assert(rest.subrange(0, 7) =~= chars@.subrange(i as int, i + 7));
            }
            assert(rest.subrange(7, rest.len() as int) =~= chars@.subrange(i + 7, chars.len() as int));
            i += 7;
        } else {
            assert(!tag_at(rest, 0)) by {
                if rest.len() >= 7 {
                    assert(rest.subrange(0, 7) =~= chars@.subrange(i as int, i + 7));
                }
            }
            assert(rest.subrange(1, rest.len() as int) =~= chars@.subrange(i + 1, chars.len() as int));
            let ghost before = kept@;
            kept.push(chars[i]);
            assert(kept@ + without_null_tags(chars@.subrange(i + 1, chars.len() as int)) =~= before
                + without_null_tags(rest));
            i += 1;
        }
    }
    assert(chars@.subrange(chars.len() as int, chars.len() as int) =~= Seq::<char>::empty());
    assert(kept@ + Seq::<char>::empty() =~= kept@);
    crate::text::string_of(&kept)
}

/// Text in which no null tag occurs comes out of the stripping unchanged.
pub proof fn law_untagged_text_unchanged(s: Seq<char>)
    requires
        forall|i: int| !#[trigger] tag_at(s, i),
    ensures
        without_null_tags(s) == s,
    decreases s.len(),
{
    if s.len() > 0 {
        let rest = s.subrange(1, s.len() as int);
        assert forall|i: int| !#[trigger] tag_at(rest, i) by {
            if tag_at(rest, i) {
                assert(s.subrange(i + 1, i + 8) =~= rest.subrange(i, i + 7));
                assert(tag_at(s, i + 1));
            }
        }
        assert(!tag_at(s, 0));
        law_untagged_text_unchanged(rest);
        assert(seq![s[0]] + rest =~= s);
    }
}

/// Stripping never makes a text longer.
pub proof fn law_stripping_never_lengthens(s: Seq<char>)
    ensures
        without_null_tags(s).len() <= s.len(),
    decreases s.len(),
{
    if s.len() > 0 {
        if tag_at(s, 0) {
            law_stripping_never_lengthens(s.subrange(7, s.len() as int));
        } else {
            law_stripping_never_lengthens(s.subrange(1, s.len() as int));
        }
    }
}

/// The hosts section of a glab configuration: the mapping under `hosts`,
/// an empty one if there is none, or an error if the value there is not a
/// mapping.
pub open spec fn hosts_section(full: Table) -> Result<Table, Seq<char>> {
    match lookup(full, "hosts"@) {
        None => Ok(Seq::empty()),
        Some(YamlView::Mapping(hosts)) => Ok(hosts),
        Some(_) => Err("'hosts' key in glab config is not a mapping"@),
    }
}

/// Reads the hosts section out of a full glab configuration.
pub fn extract_hosts_section(full_configuration: &YamlMapping) -> (r: Result<YamlMapping, Failure>)
    ensures
        r is Ok <==> hosts_section(full_configuration@) is Ok,
        r matches Ok(m) ==> hosts_section(full_configuration@) == Ok::<Table, Seq<char>>(m@),
        r matches Err(e) ==> hosts_section(full_configuration@) == Err::<Table, Seq<char>>(e.message@),
{
    match full_configuration.get("hosts") {
        None => Ok(YamlMapping::new()),
        Some(YamlValue::Mapping(hosts_mapping)) => Ok(hosts_mapping.duplicate()),
        Some(_) => Err(Failure::from_text("'hosts' key in glab config is not a mapping")),
    }
}

/// Puts a hosts section into a full glab configuration, in place of the
/// one it had.
pub fn merge_hosts_into_configuration(full_configuration: &mut YamlMapping, hosts_configuration: &YamlMapping)
    ensures
        final(full_configuration)@ == insert(
            old(full_configuration)@,
            "hosts"@,
            YamlView::Mapping(hosts_configuration@),
        ),
{
    full_configuration.insert("hosts", YamlValue::Mapping(hosts_configuration.duplicate()));
}

/// Makes `hostname` the host that the glab command line uses by default.
pub fn set_default_vcs_host(full_configuration: &mut YamlMapping, hostname: &str)
    ensures
        final(full_configuration)@ == insert(old(full_configuration)@, "host"@, YamlView::Text(hostname@)),
{
    full_configuration.insert("host", string_value(hostname));
}

/// Reading the hosts section back after merging one into a configuration
/// gives the merged section.
pub proof fn law_extract_after_merge(full: Table, hosts: Table)
    ensures
        hosts_section(insert(full, "hosts"@, YamlView::Mapping(hosts))) == Ok::<Table, Seq<char>>(hosts),
{
    lemma_insert_lookup(full, "hosts"@, YamlView::Mapping(hosts), "hosts"@);
}

/// Merging a hosts section leaves every other key of the configuration as
/// it was.
pub proof fn law_merge_keeps_other_keys(full: Table, hosts: Table, key: Seq<char>)
    requires
        key != "hosts"@,
    ensures
        lookup(insert(full, "hosts"@, YamlView::Mapping(hosts)), key) == lookup(full, key),
{
    lemma_insert_lookup(full, "hosts"@, YamlView::Mapping(hosts), key);
}

} // verus!
