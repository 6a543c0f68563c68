//! What holds of every profile made from a share link.

use crate::link::LinkParts;
use crate::share_link::LocalProfileView;
use crate::yaml::Yaml;
use vstd::prelude::*;

verus! {

/// The items of a list that is the member `key` of a document.
pub open spec fn listed(tree: Yaml, key: Seq<char>) -> Option<Seq<Yaml>> {
    match crate::yaml::member(tree, key) {
        Some(list) => match crate::yaml::untag(list) {
            Yaml::Sequence(items) => Some(items),
            _ => None,
        },
        None => None,
    }
}

/// Whether a document is the placeholder for the name of the proxy.
pub open spec fn is_placeholder(tree: Yaml) -> bool {
    crate::yaml::untag(tree) == Yaml::Text(crate::template::PLACEHOLDER@)
}

/// The keys under which a template is filled in differ.
proof fn lemma_template_keys_differ()
    ensures
        "proxies"@ != "proxy-groups"@,
{
    reveal_strlit("proxies");
    reveal_strlit("proxy-groups");
    assert("proxies"@.len() == 7);
    assert("proxy-groups"@.len() == 12);
}

/// Filling a template in changes nothing but its proxies and its groups.
pub proof fn law_filling_in_keeps_the_rest(
    template: Yaml,
    proxy: Yaml,
    name: Seq<char>,
    key: Seq<char>,
)
    requires
        key != "proxies"@,
        key != "proxy-groups"@,
    ensures
        crate::yaml::member(crate::template::filled(template, proxy, name), key)
            == crate::yaml::member(template, key),
{
    let with_proxy = crate::yaml::change_member(
        template,
        "proxies"@,
        crate::template::only_proxy(proxy),
    );
    crate::yaml::law_change_member_is_local(
        template,
        "proxies"@,
        key,
        crate::template::only_proxy(proxy),
    );
    crate::yaml::law_change_member_is_local(
        with_proxy,
        "proxy-groups"@,
        key,
        |groups: Yaml|
            crate::yaml::change_items(groups, crate::template::renamed_group(name)),
    );
}

/// A template that lists proxies lists exactly the one proxy once it is filled in;
/// one that lists none still lists none.
pub proof fn law_filled_template_has_one_proxy(template: Yaml, proxy: Yaml, name: Seq<char>)
    ensures
        listed(crate::template::filled(template, proxy, name), "proxies"@) == match listed(
            template,
            "proxies"@,
        ) {
            Some(_) => Some(seq![proxy]),
            None => None,
        },
{
    lemma_template_keys_differ();
    let with_proxy = crate::yaml::change_member(
        template,
        "proxies"@,
        crate::template::only_proxy(proxy),
    );
    crate::yaml::law_change_member_is_local(
        template,
        "proxies"@,
        "proxies"@,
        crate::template::only_proxy(proxy),
    );
    crate::yaml::law_change_member_is_local(
        with_proxy,
        "proxy-groups"@,
        "proxies"@,
        |groups: Yaml|
            crate::yaml::change_items(groups, crate::template::renamed_group(name)),
    );
    if let Some(list) = crate::yaml::member(template, "proxies"@) {
        crate::yaml::lemma_untag_retag(list, Yaml::Sequence(seq![proxy]));
    }
}

/// A template keeps its groups in their order when it is filled in, each with the
/// name of the proxy in place of the placeholder.
pub proof fn law_filled_template_keeps_its_groups(template: Yaml, proxy: Yaml, name: Seq<char>)
    ensures
        listed(crate::template::filled(template, proxy, name), "proxy-groups"@) == match listed(
            template,
            "proxy-groups"@,
        ) {
            Some(groups) => Some(groups.map_values(crate::template::renamed_group(name))),
            None => None,
        },
{
    lemma_template_keys_differ();
    let change = |groups: Yaml|
        crate::yaml::change_items(groups, crate::template::renamed_group(name));
    let with_proxy = crate::yaml::change_member(
        template,
        "proxies"@,
        crate::template::only_proxy(proxy),
    );
    crate::yaml::law_change_member_is_local(
        template,
        "proxies"@,
        "proxy-groups"@,
        crate::template::only_proxy(proxy),
    );
    crate::yaml::law_change_member_is_local(
        with_proxy,
        "proxy-groups"@,
        "proxy-groups"@,
        change,
    );
    if let Some(list) = crate::yaml::member(template, "proxy-groups"@) {
        if let Yaml::Sequence(groups) = crate::yaml::untag(list) {
            crate::yaml::lemma_untag_retag(
                list,
                Yaml::Sequence(groups.map_values(crate::template::renamed_group(name))),
            );
        }
    }
}

/// A group keeps everything but the placeholder among its members: as many
/// members in the same order, the name of the proxy exactly where the placeholder
/// stood, and every other member and every other entry of the group as it was.
pub proof fn law_group_keeps_its_members(group: Yaml, name: Seq<char>, key: Seq<char>)
    ensures
        key != "proxies"@ ==> crate::yaml::member(crate::template::renamed_group(name)(group), key)
            == crate::yaml::member(group, key),
        match listed(group, "proxies"@) {
            Some(before) => match listed(
                crate::template::renamed_group(name)(group),
                "proxies"@,
            ) {
                Some(after) => {
                    &&& after.len() == before.len()
                    &&& forall|i: int|
                        0 <= i < before.len() ==> (#[trigger] after[i]) == if is_placeholder(
                            before[i],
                        ) {
                            Yaml::Text(name)
                        } else {
                            before[i]
                        }
                },
                None => false,
            },
            None => listed(crate::template::renamed_group(name)(group), "proxies"@) is None,
        },
{
    let change = |members: Yaml|
        crate::yaml::change_items(members, crate::template::renamed_member(name));
    crate::yaml::law_change_member_is_local(group, "proxies"@, key, change);
    if let Some(list) = crate::yaml::member(group, "proxies"@) {
        if let Yaml::Sequence(members) = crate::yaml::untag(list) {
            crate::yaml::lemma_untag_retag(
                list,
                Yaml::Sequence(members.map_values(crate::template::renamed_member(name))),
            );
        }
    }
}

/// No placeholder is left among the members of a group, unless the proxy itself
/// has that name.
pub proof fn law_no_placeholder_left(group: Yaml, name: Seq<char>)
    requires
        name != crate::template::PLACEHOLDER@,
    ensures
        match listed(crate::template::renamed_group(name)(group), "proxies"@) {
            Some(members) => forall|i: int|
                0 <= i < members.len() ==> !is_placeholder(#[trigger] members[i]),
            None => true,
        },
{
    law_group_keeps_its_members(group, name, "proxies"@);
}

/// The keys that every proxy has differ.
proof fn lemma_common_keys_differ()
    ensures
        "name"@ != "type"@,
        "name"@ != "server"@,
        "name"@ != "port"@,
        "name"@ != "udp"@,
        "type"@ != "server"@,
        "type"@ != "port"@,
        "type"@ != "udp"@,
        "server"@ != "port"@,
        "server"@ != "udp"@,
        "port"@ != "udp"@,
{
    reveal_strlit("name");
    reveal_strlit("type");
    reveal_strlit("server");
    reveal_strlit("port");
    reveal_strlit("udp");
    assert("name"@.len() == 4 && "name"@[0] == 'n');
    assert("type"@.len() == 4 && "type"@[0] == 't');
    assert("server"@.len() == 6 && "server"@[0] == 's');
    assert("port"@.len() == 4 && "port"@[0] == 'p');
    assert("udp"@.len() == 3 && "udp"@[0] == 'u');
}

/// Whether `key` is one that only some schemes add to a proxy.
spec fn is_added_key(key: Seq<char>) -> bool {
    ||| key == "uuid"@
    ||| key == "tls"@
    ||| key == "flow"@
    ||| key == "servername"@
    ||| key == "client-fingerprint"@
    ||| key == "reality-opts"@
    ||| key == "cipher"@
    ||| key == "password"@
    ||| key == "alterId"@
    ||| key == "network"@
}

/// A key that only some schemes add is none of those that every proxy has.
proof fn lemma_added_key_differs(key: Seq<char>)
    requires
        is_added_key(key),
    ensures
        key != "name"@,
        key != "type"@,
        key != "server"@,
        key != "port"@,
        key != "udp"@,
{
    reveal_strlit("name");
    reveal_strlit("type");
    reveal_strlit("server");
    reveal_strlit("port");
    reveal_strlit("udp");
    reveal_strlit("uuid");
    reveal_strlit("tls");
    reveal_strlit("flow");
    reveal_strlit("servername");
    reveal_strlit("client-fingerprint");
    reveal_strlit("reality-opts");
    reveal_strlit("cipher");
    reveal_strlit("password");
    reveal_strlit("alterId");
    reveal_strlit("network");
    assert("name"@.len() == 4 && "name"@[0] == 'n');
    assert("type"@.len() == 4 && "type"@[0] == 't');
    assert("server"@.len() == 6 && "server"@[0] == 's');
    assert("port"@.len() == 4 && "port"@[0] == 'p');
    assert("udp"@.len() == 3 && "udp"@[0] == 'u');
    assert("uuid"@.len() == 4 && "uuid"@[0] == 'u');
    assert("tls"@.len() == 3 && "tls"@[0] == 't');
    assert("flow"@.len() == 4 && "flow"@[0] == 'f');
    assert("servername"@.len() == 10 && "servername"@[0] == 's');
    assert("client-fingerprint"@.len() == 18 && "client-fingerprint"@[0] == 'c');
    assert("reality-opts"@.len() == 12 && "reality-opts"@[0] == 'r');
    assert("cipher"@.len() == 6 && "cipher"@[0] == 'c');
    assert("password"@.len() == 8 && "password"@[0] == 'p');
    assert("alterId"@.len() == 7 && "alterId"@[0] == 'a');
    assert("network"@.len() == 7 && "network"@[0] == 'n');
}

/// Fields that some schemes add are none of those that every proxy has.
proof fn lemma_added_keys_differ()
    ensures
        forall|key: Seq<char>| #[trigger]
            is_added_key(key) ==> {
                &&& key != "name"@
                &&& key != "type"@
                &&& key != "server"@
                &&& key != "port"@
                &&& key != "udp"@
            },
        is_added_key("uuid"@),
        is_added_key("tls"@),
        is_added_key("flow"@),
        is_added_key("servername"@),
        is_added_key("client-fingerprint"@),
        is_added_key("reality-opts"@),
        is_added_key("cipher"@),
        is_added_key("password"@),
        is_added_key("alterId"@),
        is_added_key("network"@),
{
    assert forall|key: Seq<char>| #[trigger] is_added_key(key) implies {
        &&& key != "name"@
        &&& key != "type"@
        &&& key != "server"@
        &&& key != "port"@
        &&& key != "udp"@
    } by {
        lemma_added_key_differs(key);
    }
}

/// Every proxy has a name, a type, a server, a port and the mark for UDP; its type
/// is the scheme of the link.
pub proof fn law_every_proxy_is_described(link: LinkParts, name: Seq<char>)
    ensures
        ({
            let fields = crate::share_link::proxy_fields(link, name);
            &&& fields.contains_key("name"@)
            &&& fields.contains_key("type"@)
            &&& fields["type"@] == Yaml::Text(link.scheme)
            &&& fields.contains_key("server"@)
            &&& fields.contains_key("port"@)
            &&& fields.contains_key("udp"@)
            &&& fields["udp"@] == Yaml::Bool(true)
        }),
{
    lemma_common_keys_differ();
    lemma_added_keys_differ();
}

/// Of a link that is not a VMess link, the proxy has the name that the groups
/// refer to it by, and the host and the port of the link.
pub proof fn law_proxy_has_the_name_of_the_link(link: LinkParts, name: Seq<char>)
    requires
        link.scheme != "vmess"@,
    ensures
        ({
            let fields = crate::share_link::proxy_fields(link, name);
            &&& fields["name"@] == Yaml::Text(name)
            &&& fields["server"@] == Yaml::Text(
                match link.host {
                    Some(host) => host,
                    None => seq![],
                },
            )
            &&& fields["port"@] == Yaml::Integer(
                match link.port {
                    Some(port) => port as int,
                    None => crate::share_link::DEFAULT_PORT as int,
                },
            )
        }),
{
    lemma_common_keys_differ();
    lemma_added_keys_differ();
}

/// The proxy of a VMess link takes its server, its port and its name from the
/// object in the link wherever the object gives them, and from the link elsewhere.
pub proof fn law_vmess_object_decides(
    link: LinkParts,
    name: Seq<char>,
    object: Map<Seq<char>, Yaml>,
)
    requires
        link.scheme == "vmess"@,
        crate::link::decoded_object(
            match link.host {
                Some(host) => host,
                None => seq![],
            },
        ) == Some(object),
    ensures
        ({
            let fields = crate::share_link::proxy_fields(link, name);
            let common = crate::share_link::common_fields(link, name);
            &&& fields["server"@] == if object.contains_key("add"@) {
                object["add"@]
            } else {
                common["server"@]
            }
            &&& fields["port"@] == if object.contains_key("port"@) {
                object["port"@]
            } else {
                common["port"@]
            }
            &&& fields["name"@] == if object.contains_key("ps"@) {
                object["ps"@]
            } else {
                Yaml::Text(name)
            }
        }),
{
    lemma_common_keys_differ();
    lemma_added_keys_differ();
    reveal_strlit("vmess");
    reveal_strlit("vless");
    reveal_strlit("trojan");
    reveal_strlit("ss");
    assert("vmess"@.len() == 5 && "vmess"@[1] == 'm');
    assert("vless"@.len() == 5 && "vless"@[1] == 'l');
    assert("trojan"@.len() == 6);
    assert("ss"@.len() == 2);
}

/// The fields of a proxy are finitely many.
proof fn lemma_proxy_fields_finite(link: LinkParts, name: Seq<char>)
    ensures
        crate::share_link::proxy_fields(link, name).dom().finite(),
{
}

/// The profile document of a link that is not a VMess link: where the template
/// lists proxies, the document lists one, under the name that takes the place of
/// the placeholder in the groups, and with every field of the proxy.
pub proof fn law_document_describes_the_link(
    template: Yaml,
    link: LinkParts,
    name: Seq<char>,
    key: Seq<char>,
)
    requires
        link.scheme != "vmess"@,
        listed(template, "proxies"@) is Some,
    ensures
        ({
            let fields = crate::share_link::proxy_fields(link, name);
            let document = crate::template::filled(
                template,
                crate::fields::mapping_of(fields),
                name,
            );
            match listed(document, "proxies"@) {
                Some(proxies) => {
                    &&& proxies.len() == 1
                    &&& crate::yaml::member(proxies[0], "name"@) == Some(Yaml::Text(name))
                    &&& crate::yaml::member(proxies[0], key) == if fields.contains_key(key) {
                        Some(fields[key])
                    } else {
                        None
                    }
                },
                None => false,
            }
        }),
{
    let fields = crate::share_link::proxy_fields(link, name);
    law_filled_template_has_one_proxy(template, crate::fields::mapping_of(fields), name);
    lemma_proxy_fields_finite(link, name);
    law_every_proxy_is_described(link, name);
    law_proxy_has_the_name_of_the_link(link, name);
    crate::fields::law_mapping_has_the_fields(fields, "name"@);
    crate::fields::law_mapping_has_the_fields(fields, key);
}

/// Of several values that a query gives to a key the last one counts, and a key
/// that the query does not give has none.
pub proof fn law_last_value_counts(query: Seq<(Seq<char>, Seq<char>)>, key: Seq<char>, at: int)
    ensures
        0 <= at < query.len() && query[at].0 == key && (forall|i: int|
            at < i < query.len() ==> (#[trigger] query[i]).0 != key)
            ==> crate::share_link::last_value(query, key) == Some(Yaml::Text(query[at].1)),
        (forall|i: int| 0 <= i < query.len() ==> (#[trigger] query[i]).0 != key)
            ==> crate::share_link::last_value(query, key) is None,
    decreases query.len(),
{
    if query.len() > 0 && query.last().0 != key {
        let init = query.drop_last();
        law_last_value_counts(init, key, at);
    }
}

/// The user part of a Shadowsocks link is split at its first colon: the cipher
/// holds none, and with the colon between them the two parts are the whole.
pub proof fn law_split_at_the_first(text: Seq<char>, delimiter: char)
    ensures
        match crate::share_link::split_text(text, delimiter) {
            Some((head, tail)) => {
                &&& !head.contains(delimiter)
                &&& text == head.push(delimiter) + tail
            },
            None => !text.contains(delimiter),
        },
    decreases text.len(),
{
    if text.len() > 0 && text[0] != delimiter {
        let rest = text.drop_first();
        law_split_at_the_first(rest, delimiter);
        match crate::share_link::split_text(rest, delimiter) {
            Some((head, tail)) => {
                let longer = seq![text[0]] + head;
                assert forall|i: int| 0 <= i < longer.len() implies longer[i] != delimiter by {
                    if i > 0 {
                        assert(head.contains(head[i - 1]));
                        assert(longer[i] == head[i - 1]);
                    }
                }
                assert(text =~= seq![text[0]] + rest);
                assert(text =~= longer.push(delimiter) + tail);
            },
            None => {
                assert forall|i: int| 0 <= i < text.len() implies text[i] != delimiter by {
                    if i > 0 {
                        assert(rest.contains(rest[i - 1]));
                    }
                }
            },
        }
    } else if text.len() > 0 {
        assert(text =~= Seq::<char>::empty().push(delimiter) + text.drop_first());
    }
}

/// Whether a document is the name of one of these groups.
pub open spec fn is_group_name(groups: Seq<Yaml>, tree: Yaml) -> bool {
    exists|i: int|
        0 <= i < groups.len() && #[trigger] crate::yaml::member(groups[i], "name"@) == Some(tree)
}

/// Whether a group among `groups` lists the proxy, and besides it only groups.
pub open spec fn refers_to_proxy(
    groups: Seq<Yaml>,
    group: Yaml,
    is_proxy: spec_fn(Yaml) -> bool,
) -> bool {
    match listed(group, "proxies"@) {
        Some(members) => {
            &&& exists|i: int| 0 <= i < members.len() && is_proxy(#[trigger] members[i])
            &&& forall|i: int|
                0 <= i < members.len() ==> is_proxy(#[trigger] members[i]) || is_group_name(
                    groups,
                    members[i],
                )
        },
        None => false,
    }
}

/// Whether each group of a document lists the proxy, and besides it only groups of
/// the document.
pub open spec fn groups_refer_to_proxy(tree: Yaml, is_proxy: spec_fn(Yaml) -> bool) -> bool {
    match listed(tree, "proxy-groups"@) {
        Some(groups) => forall|i: int|
            0 <= i < groups.len() ==> refers_to_proxy(groups, #[trigger] groups[i], is_proxy),
        None => true,
    }
}

/// Whether no group of a document lists the placeholder.
pub open spec fn no_group_lists_placeholder(tree: Yaml) -> bool {
    match listed(tree, "proxy-groups"@) {
        Some(groups) => forall|i: int|
            0 <= i < groups.len() ==> match listed(#[trigger] groups[i], "proxies"@) {
                Some(members) => forall|j: int|
                    0 <= j < members.len() ==> !is_placeholder(#[trigger] members[j]),
                None => true,
            },
        None => true,
    }
}

/// Groups keep their names when a template is filled in.
proof fn lemma_group_names_stay(groups: Seq<Yaml>, name: Seq<char>, tree: Yaml)
    requires
        is_group_name(groups, tree),
    ensures
        is_group_name(groups.map_values(crate::template::renamed_group(name)), tree),
{
    reveal_strlit("name");
    reveal_strlit("proxies");
    assert("name"@.len() == 4);
    assert("proxies"@.len() == 7);
    let i = choose|i: int|
        0 <= i < groups.len() && #[trigger] crate::yaml::member(groups[i], "name"@) == Some(tree);
    law_group_keeps_its_members(groups[i], name, "name"@);
    let renamed = groups.map_values(crate::template::renamed_group(name));
    assert(renamed[i] == crate::template::renamed_group(name)(groups[i]));
    assert(crate::yaml::member(renamed[i], "name"@) == Some(tree));
}

/// If each group of a template lists the placeholder, and besides it only groups,
/// then each group of the filled document lists the name of the proxy, and besides
/// it only groups. The placeholder is gone from all of them, unless the proxy itself
/// has that name.
pub proof fn law_groups_of_the_document_refer_to_the_proxy(
    template: Yaml,
    proxy: Yaml,
    name: Seq<char>,
)
    requires
        groups_refer_to_proxy(template, |tree: Yaml| is_placeholder(tree)),
    ensures
        groups_refer_to_proxy(
            crate::template::filled(template, proxy, name),
            |tree: Yaml| tree == Yaml::Text(name),
        ),
        name != crate::template::PLACEHOLDER@ ==> no_group_lists_placeholder(
            crate::template::filled(template, proxy, name),
        ),
{
    law_filled_template_keeps_its_groups(template, proxy, name);
    let in_template = |tree: Yaml| is_placeholder(tree);
    let in_document = |tree: Yaml| tree == Yaml::Text(name);
    if let Some(groups) = listed(template, "proxy-groups"@) {
        let renamed = groups.map_values(crate::template::renamed_group(name));
        assert forall|g: int| 0 <= g < renamed.len() implies refers_to_proxy(
            renamed,
            #[trigger] renamed[g],
            in_document,
        ) by {
            let group = groups[g];
            assert(renamed[g] == crate::template::renamed_group(name)(group));
            assert(refers_to_proxy(groups, group, in_template));
            law_group_keeps_its_members(group, name, "name"@);
            let before = listed(group, "proxies"@)->0;
            let after = listed(renamed[g], "proxies"@)->0;
            let k = choose|k: int| 0 <= k < before.len() && in_template(#[trigger] before[k]);
            assert(in_document(after[k]));
            assert forall|i: int| 0 <= i < after.len() implies in_document(#[trigger] after[i])
                || is_group_name(renamed, after[i]) by {
                assert(in_template(before[i]) || is_group_name(groups, before[i]));
                if !is_placeholder(before[i]) {
                    lemma_group_names_stay(groups, name, before[i]);
                }
            }
        }
        if name != crate::template::PLACEHOLDER@ {
            assert forall|g: int| 0 <= g < renamed.len() implies match listed(
                #[trigger] renamed[g],
                "proxies"@,
            ) {
                Some(members) => forall|j: int|
                    0 <= j < members.len() ==> !is_placeholder(#[trigger] members[j]),
                None => true,
            } by {
                assert(renamed[g] == crate::template::renamed_group(name)(groups[g]));
                law_no_placeholder_left(groups[g], name);
            }
        }
    }
}

/// The document that a profile from a link is rendered from.
pub open spec fn document_of(template: Yaml, parts: LinkParts) -> Yaml {
    let name = crate::share_link::proxy_name(parts.fragment);
    crate::template::filled(
        template,
        crate::fields::mapping_of(crate::share_link::proxy_fields(parts, name)),
        name,
    )
}

/// The profile made from a link has the name that the link gives to the proxy, and
/// its file is the rendered document. Where the template lists proxies, and its
/// groups list the placeholder and besides it only groups, the document has one
/// proxy, whose name is that of the profile unless the link is a VMess link; each
/// of its groups lists this name, and besides it only groups; and the placeholder
/// is gone, unless it is the name.
pub proof fn law_profile_of_a_link(
    link: Seq<char>,
    template_name: Seq<char>,
    parts: LinkParts,
    template: Yaml,
    profile: LocalProfileView,
)
    requires
        crate::link::link_parts(link) == Ok::<LinkParts, Seq<char>>(parts),
        crate::yaml::yaml_parsed(crate::template::template_text(template_name)) == Ok::<
            Yaml,
            Seq<char>,
        >(template),
        listed(template, "proxies"@) is Some,
        groups_refer_to_proxy(template, |tree: Yaml| is_placeholder(tree)),
        crate::share_link::profile_from_link(link, template_name) == Ok::<
            LocalProfileView,
            Seq<char>,
        >(profile),
    ensures
        profile.name == crate::share_link::proxy_name(parts.fragment),
        crate::yaml::yaml_rendered(document_of(template, parts)) == Ok::<Seq<char>, Seq<char>>(
            profile.file_data,
        ),
        match listed(document_of(template, parts), "proxies"@) {
            Some(proxies) => {
                &&& proxies.len() == 1
                &&& parts.scheme != "vmess"@ ==> crate::yaml::member(proxies[0], "name"@) == Some(
                    Yaml::Text(profile.name),
                )
            },
            None => false,
        },
        groups_refer_to_proxy(
            document_of(template, parts),
            |tree: Yaml| tree == Yaml::Text(profile.name),
        ),
        profile.name != crate::template::PLACEHOLDER@ ==> no_group_lists_placeholder(
            document_of(template, parts),
        ),
{
    let name = crate::share_link::proxy_name(parts.fragment);
    let proxy = crate::fields::mapping_of(crate::share_link::proxy_fields(parts, name));
    law_filled_template_has_one_proxy(template, proxy, name);
    law_groups_of_the_document_refer_to_the_proxy(template, proxy, name);
    if parts.scheme != "vmess"@ {
        law_document_describes_the_link(template, parts, name, "name"@);
    }
}

} // verus!
