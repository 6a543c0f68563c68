//! What the proxy of a share link holds, by the parts of the link.

use crate::link::{LinkParts, ShareLink};
use crate::share_link::{LocalProfile, LocalProfileView};
use crate::yaml::Yaml;
use vstd::prelude::*;

verus! {

/// The parts of a link are read as they are: none is left out or changed.
pub proof fn law_parts_of_a_link_are_read_whole(link: ShareLink)
    ensures
        link@.scheme == link.scheme@,
        link@.username == link.username@,
        link@.host is Some <==> link.host is Some,
        link.host is Some ==> link@.host->0 == link.host->0@,
        link@.port == link.port,
        link@.fragment is Some <==> link.fragment is Some,
        link.fragment is Some ==> link@.fragment->0 == link.fragment->0@,
        link@.query.len() == link.query@.len(),
        forall|i: int|
            0 <= i < link.query@.len() ==> {
                &&& (#[trigger] link@.query[i]).0 == link.query@[i].0@
                &&& link@.query[i].1 == link.query@[i].1@
            },
{
}

/// A profile to be created is read as it is.
pub proof fn law_profile_is_read_whole(profile: LocalProfile)
    ensures
        profile@.name == profile.name@,
        profile@.desc == profile.desc@,
        profile@.file_data == profile.file_data@,
{
}

/// What the keys of a proxy, and the schemes, can be told apart by.
proof fn lemma_keys()
    ensures
        "name"@.len() == 4 && "name"@[0] == 'n',
        "type"@.len() == 4 && "type"@[0] == 't',
        "server"@.len() == 6 && "server"@[0] == 's',
        "port"@.len() == 4 && "port"@[0] == 'p',
        "udp"@.len() == 3 && "udp"@[0] == 'u',
        "uuid"@.len() == 4 && "uuid"@[0] == 'u',
        "tls"@.len() == 3 && "tls"@[0] == 't',
        "flow"@.len() == 4 && "flow"@[0] == 'f',
        "servername"@.len() == 10 && "servername"@[0] == 's',
        "client-fingerprint"@.len() == 18 && "client-fingerprint"@[0] == 'c',
        "reality-opts"@.len() == 12 && "reality-opts"@[0] == 'r',
        "cipher"@.len() == 6 && "cipher"@[0] == 'c',
        "password"@.len() == 8 && "password"@[0] == 'p',
        "alterId"@.len() == 7 && "alterId"@[0] == 'a',
        "network"@.len() == 7 && "network"@[0] == 'n',
        "public-key"@.len() == 10,
        "short-id"@.len() == 8,
        "vless"@.len() == 5,
        "trojan"@.len() == 6,
        "ss"@.len() == 2,
        "vmess"@.len() == 5,
        "vless"@[1] == 'l',
        "vmess"@[1] == 'm',
{
    reveal_strlit("name");
    reveal_strlit("type");
    reveal_strlit("server");
    reveal_strlit("port");
    reveal_strlit("udp");
    reveal_strlit("uuid");
    reveal_strlit("tls");
    reveal_strlit("flow");
    reveal_strlit("servername");
    reveal_strlit("client-fingerprint");
    reveal_strlit("reality-opts");
    reveal_strlit("cipher");
    reveal_strlit("password");
    reveal_strlit("alterId");
    reveal_strlit("network");
    reveal_strlit("public-key");
    reveal_strlit("short-id");
    reveal_strlit("vless");
    reveal_strlit("trojan");
    reveal_strlit("ss");
    reveal_strlit("vmess");
}

/// The value of a key, if there is one.
pub open spec fn value_of(fields: Map<Seq<char>, Yaml>, key: Seq<char>) -> Option<Yaml> {
    if fields.contains_key(key) {
        Some(fields[key])
    } else {
        None
    }
}

/// Whether `value` is the last one that a query gives to a key, or there is none and
/// the query gives the key none.
pub open spec fn is_last_in_query(
    query: Seq<(Seq<char>, Seq<char>)>,
    key: Seq<char>,
    value: Option<Yaml>,
) -> bool {
    match value {
        Some(tree) => exists|at: int|
            #![trigger query[at]]
            0 <= at < query.len() && query[at].0 == key && tree == Yaml::Text(query[at].1) && (
            forall|i: int| at < i < query.len() ==> (#[trigger] query[i]).0 != key),
        None => forall|i: int| 0 <= i < query.len() ==> (#[trigger] query[i]).0 != key,
    }
}

/// The value that counts is the last one.
proof fn lemma_last_value(query: Seq<(Seq<char>, Seq<char>)>, key: Seq<char>)
    ensures
        is_last_in_query(query, key, crate::share_link::last_value(query, key)),
    decreases query.len(),
{
    if query.len() > 0 {
        let last = query.len() - 1;
        if query.last().0 == key {
            assert(query[last].0 == key);
        } else {
            let init = query.drop_last();
            lemma_last_value(init, key);
            match crate::share_link::last_value(init, key) {
                Some(tree) => {
                    let at = choose|at: int|
                        #![trigger init[at]]
                        0 <= at < init.len() && init[at].0 == key && tree == Yaml::Text(init[at].1)
                            && (forall|i: int|
                            at < i < init.len() ==> (#[trigger] init[i]).0 != key);
                    assert(query[at] == init[at]);
                    assert forall|i: int| at < i < query.len() implies (#[trigger] query[i]).0
                        != key by {
                        if i < last {
                            assert(query[i] == init[i]);
                        }
                    }
                },
                None => {
                    assert forall|i: int| 0 <= i < query.len() implies (#[trigger] query[i]).0
                        != key by {
                        if i < last {
                            assert(query[i] == init[i]);
                        }
                    }
                },
            }
        }
    }
}

/// Whether a query asks for TLS: it gives `reality` or `tls` to `security`, be it
/// once or among other values.
pub open spec fn query_asks_for_tls(query: Seq<(Seq<char>, Seq<char>)>) -> bool {
    exists|i: int|
        #![trigger query[i]]
        0 <= i < query.len() && query[i].0 == "security"@ && (query[i].1 == "reality"@ || query[i].1
            == "tls"@)
}

/// Whether a query gives a key a value.
pub open spec fn query_gives(query: Seq<(Seq<char>, Seq<char>)>, key: Seq<char>) -> bool {
    exists|i: int| 0 <= i < query.len() && (#[trigger] query[i]).0 == key
}

/// The proxy of a VLESS link and that of a Trojan link hold the same: the user part
/// as `uuid`; `tls` exactly if the query asks for it; the last flow, SNI and
/// fingerprint that the query gives; and options for REALITY exactly if the query
/// gives a public key or a short identifier, with the last of each and nothing else.
/// They have no fields but these and those that every proxy has.
pub proof fn law_vless_and_trojan_proxies(
    link: LinkParts,
    name: Seq<char>,
    key: Seq<char>,
    option: Seq<char>,
)
    requires
        link.scheme == "vless"@ || link.scheme == "trojan"@,
    ensures
        ({
            let fields = crate::share_link::proxy_fields(link, name);
            let reality = fields["reality-opts"@];
            &&& value_of(fields, "uuid"@) == Some(Yaml::Text(link.username))
            &&& fields.contains_key("tls"@) <==> query_asks_for_tls(link.query)
            &&& fields.contains_key("tls"@) ==> fields["tls"@] == Yaml::Bool(true)
            &&& is_last_in_query(link.query, "flow"@, value_of(fields, "flow"@))
            &&& is_last_in_query(link.query, "sni"@, value_of(fields, "servername"@))
            &&& is_last_in_query(link.query, "fp"@, value_of(fields, "client-fingerprint"@))
            &&& fields.contains_key("reality-opts"@) <==> query_gives(link.query, "pbk"@)
                || query_gives(link.query, "sid"@)
            &&& fields.contains_key("reality-opts"@) ==> {
                &&& is_last_in_query(
                    link.query,
                    "pbk"@,
                    crate::yaml::member(reality, "public-key"@),
                )
                &&& is_last_in_query(link.query, "sid"@, crate::yaml::member(reality, "short-id"@))
                &&& option != "public-key"@ && option != "short-id"@ ==> crate::yaml::member(
                    reality,
                    option,
                ) is None
            }
            &&& fields.contains_key(key) ==> {
                ||| key == "name"@
                ||| key == "type"@
                ||| key == "server"@
                ||| key == "port"@
                ||| key == "udp"@
                ||| key == "uuid"@
                ||| key == "tls"@
                ||| key == "flow"@
                ||| key == "servername"@
                ||| key == "client-fingerprint"@
                ||| key == "reality-opts"@
            }
        }),
{
    lemma_keys();
    let query = link.query;
    lemma_last_value(query, "flow"@);
    lemma_last_value(query, "sni"@);
    lemma_last_value(query, "fp"@);
    lemma_last_value(query, "pbk"@);
    lemma_last_value(query, "sid"@);
    let fields = crate::share_link::proxy_fields(link, name);
    let options = crate::share_link::reality_fields(query);
    assert(query_asks_for_tls(query) <==> crate::share_link::tls_mark(query) is Some) by {
        if query_asks_for_tls(query) {
            let i = choose|i: int|
                #![trigger query[i]]
                0 <= i < query.len() && query[i].0 == "security"@ && (query[i].1 == "reality"@
                    || query[i].1 == "tls"@);
            assert(crate::share_link::asks_tls(query[i]));
        }
        if crate::share_link::tls_mark(query) is Some {
            let i = choose|i: int|
                0 <= i < query.len() && crate::share_link::asks_tls(#[trigger] query[i]);
            assert(query[i].0 == "security"@);
        }
    }
    assert(value_of(fields, "tls"@) == crate::share_link::tls_mark(query));
    assert(value_of(fields, "flow"@) == crate::share_link::last_value(query, "flow"@));
    assert(value_of(fields, "servername"@) == crate::share_link::last_value(query, "sni"@));
    assert(value_of(fields, "client-fingerprint"@) == crate::share_link::last_value(query, "fp"@));
    assert(value_of(options, "public-key"@) == crate::share_link::last_value(query, "pbk"@));
    assert(value_of(options, "short-id"@) == crate::share_link::last_value(query, "sid"@));
    assert(query_gives(query, "pbk"@) <==> crate::share_link::last_value(query, "pbk"@) is Some);
    assert(query_gives(query, "sid"@) <==> crate::share_link::last_value(query, "sid"@) is Some);
    if options == Map::<Seq<char>, Yaml>::empty() {
        assert(!options.contains_key("public-key"@));
        assert(!options.contains_key("short-id"@));
    } else {
        if !options.contains_key("public-key"@) && !options.contains_key("short-id"@) {
            assert(options =~= Map::<Seq<char>, Yaml>::empty());
        }
        assert(fields["reality-opts"@] == crate::fields::mapping_of(options));
        crate::fields::law_mapping_has_the_fields(options, "public-key"@);
        crate::fields::law_mapping_has_the_fields(options, "short-id"@);
        crate::fields::law_mapping_has_the_fields(options, option);
    }
}

/// The proxies of a VLESS and of a Trojan link with the same parts differ in their
/// type alone.
pub proof fn law_vless_and_trojan_differ_in_type_alone(
    vless: LinkParts,
    trojan: LinkParts,
    name: Seq<char>,
)
    requires
        vless.scheme == "vless"@,
        trojan == (LinkParts { scheme: "trojan"@, ..vless }),
    ensures
        crate::share_link::proxy_fields(trojan, name) == crate::share_link::proxy_fields(
            vless,
            name,
        ).insert("type"@, Yaml::Text("trojan"@)),
{
    lemma_keys();
    assert(crate::share_link::proxy_fields(trojan, name) =~= crate::share_link::proxy_fields(
        vless,
        name,
    ).insert("type"@, Yaml::Text("trojan"@)));
}

/// The proxy of a Shadowsocks link whose user part is, in Base64, a text with a
/// colon has the text before its first colon as cipher and the rest as password.
pub proof fn law_shadowsocks_proxy(
    link: LinkParts,
    name: Seq<char>,
    bytes: Seq<u8>,
    cipher: Seq<char>,
    password: Seq<char>,
)
    requires
        link.scheme == "ss"@,
        crate::link::base64_decoded(link.username) == Some(bytes),
        vstd::utf8::valid_utf8(bytes),
        vstd::utf8::decode_utf8(bytes) == cipher.push(':') + password,
        !cipher.contains(':'),
    ensures
        ({
            let fields = crate::share_link::proxy_fields(link, name);
            &&& value_of(fields, "cipher"@) == Some(Yaml::Text(cipher))
            &&& value_of(fields, "password"@) == Some(Yaml::Text(password))
        }),
{
    lemma_keys();
    let text = vstd::utf8::decode_utf8(bytes);
    crate::share_link_laws::law_split_at_the_first(text, ':');
    assert(text[cipher.len() as int] == ':');
    assert(text.contains(':'));
    let (head, tail) = crate::share_link::split_text(text, ':')->0;
    assert(text[head.len() as int] == ':');
    if head.len() < cipher.len() {
        assert(cipher[head.len() as int] == text[head.len() as int]);
        assert(cipher.contains(':'));
    }
    if cipher.len() < head.len() {
        assert(head[cipher.len() as int] == text[cipher.len() as int]);
        assert(head.contains(':'));
    }
    assert(head =~= text.take(head.len() as int));
    assert(cipher =~= text.take(cipher.len() as int));
    assert(tail =~= text.skip(head.len() as int + 1));
    assert(password =~= text.skip(cipher.len() as int + 1));
}

/// The proxy of a Shadowsocks link whose user part is no such text, and that of a
/// link of any scheme that is not known, have the fields that every proxy has and no
/// others; that of a Shadowsocks link never has others than these, a cipher and a
/// password.
pub proof fn law_other_proxies_have_the_common_fields(
    link: LinkParts,
    name: Seq<char>,
    key: Seq<char>,
)
    requires
        link.scheme != "vless"@,
        link.scheme != "trojan"@,
        link.scheme != "vmess"@,
    ensures
        crate::share_link::proxy_fields(link, name).contains_key(key) ==> {
            ||| key == "name"@
            ||| key == "type"@
            ||| key == "server"@
            ||| key == "port"@
            ||| key == "udp"@
            ||| link.scheme == "ss"@ && (key == "cipher"@ || key == "password"@) && {
                let bytes = crate::link::base64_decoded(link.username);
                &&& bytes is Some
                &&& vstd::utf8::valid_utf8(bytes->0)
                &&& vstd::utf8::decode_utf8(bytes->0).contains(':')
            }
        },
{
    lemma_keys();
    if let Some(bytes) = crate::link::base64_decoded(link.username) {
        let text = vstd::utf8::decode_utf8(bytes);
        crate::share_link_laws::law_split_at_the_first(text, ':');
        if let Some((head, tail)) = crate::share_link::split_text(text, ':') {
            assert(text[head.len() as int] == ':');
        }
    }
}

/// The server of a link: its host, or an empty text.
pub open spec fn is_host_of(tree: Yaml, link: LinkParts) -> bool {
    tree == Yaml::Text(
        match link.host {
            Some(host) => host,
            None => seq![],
        },
    )
}

/// Whether `value` is what an object gives to a key; if it gives it nothing,
/// `value` is `other`.
pub open spec fn is_given(
    members: Seq<(Seq<char>, Yaml)>,
    key: Seq<char>,
    value: Option<Yaml>,
    other: Option<Yaml>,
) -> bool {
    ||| exists|i: int|
        #![trigger members[i]]
        0 <= i < members.len() && members[i].0 == key && value == Some(members[i].1)
    ||| (forall|i: int| 0 <= i < members.len() ==> (#[trigger] members[i]).0 != key) && value
        == other
}

/// What an object gives to a key.
proof fn lemma_given(members: Seq<(Seq<char>, Yaml)>, key: Seq<char>, other: Option<Yaml>)
    requires
        crate::fields::ascending(members),
    ensures
        is_given(
            members,
            key,
            if crate::fields::by_key(members).contains_key(key) {
                Some(crate::fields::by_key(members)[key])
            } else {
                other
            },
            other,
        ),
{
    if crate::fields::has_key(members, key) {
        let i = choose|i: int| 0 <= i < members.len() && (#[trigger] members[i]).0 == key;
        crate::fields::lemma_by_key(members, i);
        assert(members[i].0 == key);
    }
}

/// The proxy of a VMess link whose host is, in Base64, a JSON object takes from it
/// the server (`add`), the port, the identifier (`id`), `aid`, the network (`net`)
/// and the name (`ps`). Server, port and name are those of the link where the object
/// gives none, and the others are missing then. There are no more fields but the
/// type and the mark for UDP.
pub proof fn law_vmess_proxy(
    link: LinkParts,
    name: Seq<char>,
    bytes: Seq<u8>,
    members: Seq<(Seq<char>, Yaml)>,
    key: Seq<char>,
)
    requires
        link.scheme == "vmess"@,
        crate::link::base64_decoded(
            match link.host {
                Some(host) => host,
                None => seq![],
            },
        ) == Some(bytes),
        vstd::utf8::valid_utf8(bytes),
        crate::link::json_members(vstd::utf8::decode_utf8(bytes)) == Some(members),
        crate::fields::ascending(members),
    ensures
        ({
            let fields = crate::share_link::proxy_fields(link, name);
            let host = match link.host {
                Some(host) => host,
                None => seq![],
            };
            let port: int = match link.port {
                Some(port) => port as int,
                None => 443,
            };
            &&& is_given(
                members,
                "add"@,
                value_of(fields, "server"@),
                Some(Yaml::Text(host)),
            )
            &&& is_given(members, "port"@, value_of(fields, "port"@), Some(Yaml::Integer(port)))
            &&& is_given(members, "ps"@, value_of(fields, "name"@), Some(Yaml::Text(name)))
            &&& is_given(members, "id"@, value_of(fields, "uuid"@), None)
            &&& is_given(members, "aid"@, value_of(fields, "alterId"@), None)
            &&& is_given(members, "net"@, value_of(fields, "network"@), None)
            &&& fields.contains_key(key) ==> {
                ||| key == "name"@
                ||| key == "type"@
                ||| key == "server"@
                ||| key == "port"@
                ||| key == "udp"@
                ||| key == "uuid"@
                ||| key == "alterId"@
                ||| key == "network"@
            }
        }),
{
    lemma_keys();
    let fields = crate::share_link::proxy_fields(link, name);
    let common = crate::share_link::common_fields(link, name);
    lemma_given(members, "add"@, value_of(common, "server"@));
    lemma_given(members, "port"@, value_of(common, "port"@));
    lemma_given(members, "ps"@, value_of(common, "name"@));
    lemma_given(members, "id"@, None);
    lemma_given(members, "aid"@, None);
    lemma_given(members, "net"@, None);
    let given = crate::fields::by_key(members);
    assert(fields == crate::share_link::vmess_fields(common, Some(given)));
}

/// The proxy of a VMess link whose host is no such object has the name, the host and
/// the port of the link, and no more fields but the type and the mark for UDP.
pub proof fn law_vmess_proxy_without_an_object(link: LinkParts, name: Seq<char>, key: Seq<char>)
    requires
        link.scheme == "vmess"@,
        ({
            let bytes = crate::link::base64_decoded(
                match link.host {
                    Some(host) => host,
                    None => seq![],
                },
            );
            ||| bytes is None
            ||| !vstd::utf8::valid_utf8(bytes->0)
            ||| crate::link::json_members(vstd::utf8::decode_utf8(bytes->0)) is None
        }),
    ensures
        ({
            let fields = crate::share_link::proxy_fields(link, name);
            &&& value_of(fields, "name"@) == Some(Yaml::Text(name))
            &&& fields.contains_key("server"@)
            &&& is_host_of(fields["server"@], link)
            &&& value_of(fields, "port"@) == Some(
                Yaml::Integer(
                    match link.port {
                        Some(port) => port as int,
                        None => 443,
                    },
                ),
            )
            &&& fields.contains_key(key) ==> {
                ||| key == "name"@
                ||| key == "type"@
                ||| key == "server"@
                ||| key == "port"@
                ||| key == "udp"@
            }
        }),
{
    lemma_keys();
}

/// Of any scheme but VMess, the proxy has the name that it is given, the host of the
/// link and its port, which is 443 where the link names none.
pub proof fn law_address_of_a_proxy(link: LinkParts, name: Seq<char>)
    requires
        link.scheme != "vmess"@,
    ensures
        ({
            let fields = crate::share_link::proxy_fields(link, name);
            &&& value_of(fields, "name"@) == Some(Yaml::Text(name))
            &&& fields.contains_key("server"@)
            &&& is_host_of(fields["server"@], link)
            &&& link.port is Some ==> value_of(fields, "port"@) == Some(
                Yaml::Integer(link.port->0 as int),
            )
            &&& link.port is None ==> value_of(fields, "port"@) == Some(Yaml::Integer(443))
        }),
{
    lemma_keys();
}

/// The name of a proxy is what the fragment of its link decodes to, and a fixed one
/// where there is no fragment.
pub proof fn law_name_of_a_proxy(fragment: Seq<char>)
    ensures
        crate::share_link::proxy_name(Some(fragment)) == crate::link::percent_decoded(fragment),
        crate::share_link::proxy_name(None) == "Proxy from Link"@,
{
}

/// One name chooses the second template, and every other the first.
pub proof fn law_name_chooses_the_template(template_name: Seq<char>)
    ensures
        template_name == "without_ru"@ ==> crate::template::template_text(template_name)
            == crate::template::WITHOUT_RU_TEMPLATE@,
        template_name != "without_ru"@ ==> crate::template::template_text(template_name)
            == crate::template::DEFAULT_TEMPLATE@,
{
}

/// A profile from a link fails exactly where the link cannot be parsed, the template
/// cannot, or the document cannot be rendered, with the error of the first of these.
/// Otherwise it has the name of the proxy, a fixed description, and the rendered
/// document.
pub proof fn law_profile_or_first_error(link: Seq<char>, template_name: Seq<char>)
    ensures
        ({
            let made = crate::share_link::profile_from_link(link, template_name);
            let parts = crate::link::link_parts(link);
            let template = crate::yaml::yaml_parsed(
                crate::template::template_text(template_name),
            );
            if parts is Err {
                made == Err::<LocalProfileView, Seq<char>>(parts->Err_0)
            } else if template is Err {
                made == Err::<LocalProfileView, Seq<char>>(template->Err_0)
            } else {
                let name = crate::share_link::proxy_name(parts->Ok_0.fragment);
                let proxy = crate::fields::mapping_of(
                    crate::share_link::proxy_fields(parts->Ok_0, name),
                );
                let rendered = crate::yaml::yaml_rendered(
                    crate::template::filled(template->Ok_0, proxy, name),
                );
                if rendered is Err {
                    made == Err::<LocalProfileView, Seq<char>>(rendered->Err_0)
                } else {
                    &&& made is Ok
                    &&& made->Ok_0.name == name
                    &&& made->Ok_0.desc == "Created from share link"@
                    &&& made->Ok_0.file_data == rendered->Ok_0
                }
            }
        }),
{
}

/// Whether `after` is `before` with other values at some keys alone: a mapping with
/// the same keys in the same order below the same tags, or the same document.
pub open spec fn differs_at_keys_alone(
    before: Yaml,
    after: Yaml,
    first: Seq<char>,
    second: Seq<char>,
) -> bool {
    &&& crate::yaml::retag(before, crate::yaml::untag(after)) == after
    &&& match crate::yaml::untag(before) {
        Yaml::Mapping(old_pairs) => match crate::yaml::untag(after) {
            Yaml::Mapping(new_pairs) => {
                &&& new_pairs.len() == old_pairs.len()
                &&& forall|i: int|
                    0 <= i < old_pairs.len() ==> (#[trigger] new_pairs[i]).0 == old_pairs[i].0
                &&& forall|i: int|
                    0 <= i < old_pairs.len() && old_pairs[i].0 != Yaml::Text(first)
                        && old_pairs[i].0 != Yaml::Text(second) ==> (#[trigger] new_pairs[i]).1
                        == old_pairs[i].1
            },
            _ => false,
        },
        _ => after == before,
    }
}

/// Changing one member changes nothing but the value at its key.
proof fn lemma_change_at_one_key(tree: Yaml, key: Seq<char>, change: spec_fn(Yaml) -> Yaml)
    ensures
        differs_at_keys_alone(tree, crate::yaml::change_member(tree, key, change), key, key),
{
    crate::yaml::lemma_retag_untag(tree);
    if let Yaml::Mapping(pairs) = crate::yaml::untag(tree) {
        crate::yaml::lemma_position_in_range(pairs, key);
        if let Some(at) = crate::yaml::position(pairs, key) {
            crate::yaml::lemma_untag_retag(
                tree,
                Yaml::Mapping(crate::yaml::with_value_at(pairs, at, change(pairs[at].1))),
            );
        }
    }
}

/// A document below the tags of another one that has the tags of a third has them
/// too.
proof fn lemma_same_tags(first: Yaml, second: Yaml, core: Yaml)
    requires
        crate::yaml::retag(first, crate::yaml::untag(second)) == second,
    ensures
        crate::yaml::retag(second, core) == crate::yaml::retag(first, core),
    decreases first,
{
    match first {
        Yaml::Tagged(_, inner) => {
            lemma_untag_below(second);
            match second {
                Yaml::Tagged(_, below) => {
                    assert(crate::yaml::retag(*inner, crate::yaml::untag(*below)) == *below);
                    lemma_same_tags(*inner, *below, core);
                },
                _ => {},
            }
        },
        _ => {
            lemma_untag_below(second);
        },
    }
}

/// Below all tags stands no tag.
proof fn lemma_untag_below(tree: Yaml)
    ensures
        !(crate::yaml::untag(tree) is Tagged),
    decreases tree,
{
    if let Yaml::Tagged(_, inner) = tree {
        lemma_untag_below(*inner);
    }
}

/// Filling a template in keeps its keys, their order, its tags and every value but
/// those of the proxies and the groups. A value there that is no list stays too.
pub proof fn law_filled_template_keeps_its_shape(template: Yaml, proxy: Yaml, name: Seq<char>)
    ensures
        ({
            let document = crate::template::filled(template, proxy, name);
            &&& differs_at_keys_alone(template, document, "proxies"@, "proxy-groups"@)
            &&& crate::share_link_laws::listed(template, "proxies"@) is None
                ==> crate::yaml::member(document, "proxies"@) == crate::yaml::member(
                template,
                "proxies"@,
            )
            &&& crate::share_link_laws::listed(template, "proxy-groups"@) is None
                ==> crate::yaml::member(document, "proxy-groups"@) == crate::yaml::member(
                template,
                "proxy-groups"@,
            )
        }),
{
    reveal_strlit("proxies");
    reveal_strlit("proxy-groups");
    assert("proxies"@.len() == 7);
    assert("proxy-groups"@.len() == 12);
    let only = crate::template::only_proxy(proxy);
    let rename = |groups: Yaml|
        crate::yaml::change_items(groups, crate::template::renamed_group(name));
    let between = crate::yaml::change_member(template, "proxies"@, only);
    let document = crate::template::filled(template, proxy, name);
    lemma_change_at_one_key(template, "proxies"@, only);
    lemma_change_at_one_key(between, "proxy-groups"@, rename);
    lemma_same_tags(template, between, crate::yaml::untag(document));
    crate::yaml::law_change_member_is_local(template, "proxies"@, "proxies"@, only);
    crate::yaml::law_change_member_is_local(template, "proxies"@, "proxy-groups"@, only);
    crate::yaml::law_change_member_is_local(between, "proxy-groups"@, "proxies"@, rename);
    crate::yaml::law_change_member_is_local(between, "proxy-groups"@, "proxy-groups"@, rename);
    if let Yaml::Mapping(pairs) = crate::yaml::untag(template) {
        let middle = crate::yaml::untag(between)->Mapping_0;
        let last = crate::yaml::untag(document)->Mapping_0;
        assert forall|i: int| 0 <= i < pairs.len() implies (#[trigger] last[i]).0
            == pairs[i].0 by {
            assert(middle[i].0 == pairs[i].0);
        }
        assert forall|i: int|
            0 <= i < pairs.len() && pairs[i].0 != Yaml::Text("proxies"@) && pairs[i].0
                != Yaml::Text("proxy-groups"@) implies (#[trigger] last[i]).1 == pairs[i].1 by {
            assert(middle[i].0 == pairs[i].0);
            assert(middle[i].1 == pairs[i].1);
        }
    }
}

/// A group keeps its keys, their order, its tags and every value but that of its
/// members; if these are no list, they stay too.
pub proof fn law_group_keeps_its_shape(group: Yaml, name: Seq<char>)
    ensures
        ({
            let renamed = crate::template::renamed_group(name)(group);
            &&& differs_at_keys_alone(group, renamed, "proxies"@, "proxies"@)
            &&& crate::share_link_laws::listed(group, "proxies"@) is None
                ==> crate::yaml::member(renamed, "proxies"@) == crate::yaml::member(
                group,
                "proxies"@,
            )
        }),
{
    let change = |members: Yaml|
        crate::yaml::change_items(members, crate::template::renamed_member(name));
    lemma_change_at_one_key(group, "proxies"@, change);
    crate::yaml::law_change_member_is_local(group, "proxies"@, "proxies"@, change);
}

} // verus!
