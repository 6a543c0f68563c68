//! Making a profile from a share link.

use crate::fields::Fields;
use crate::link::{decode_object, decode_text, parse_link, percent_decode, LinkParts, ShareLink};
use crate::template::{choose_template, fill_template};
use crate::text::{same_text, split_first};
use crate::yaml::{bool_value, copy_value, number_value, parse_yaml, render_yaml, text_value, Yaml};
use vstd::prelude::*;

verus! {

/// The port of a link that names none.
pub const DEFAULT_PORT: u16 = 443;

/// The name of a proxy whose link names none.
pub const UNNAMED_PROXY: &'static str = "Proxy from Link";

/// The description of a profile made from a share link.
pub const PROFILE_DESCRIPTION: &'static str = "Created from share link";

/// A profile to be created from a document.
#[derive(Debug, PartialEq, Eq)]
pub struct LocalProfile {
    pub name: String,
    pub desc: String,
    pub file_data: String,
}

/// What a profile to be created holds.
pub struct LocalProfileView {
    pub name: Seq<char>,
    pub desc: Seq<char>,
    pub file_data: Seq<char>,
}

impl View for LocalProfile {
    type V = LocalProfileView;

    open spec fn view(&self) -> LocalProfileView {
        LocalProfileView {
            name: self.name@,
            desc: self.desc@,
            file_data: self.file_data@,
        }
    }
}

/// The name of the proxy of a link with this fragment.
pub open spec fn proxy_name(fragment: Option<Seq<char>>) -> Seq<char> {
    match fragment {
        Some(text) => crate::link::percent_decoded(text),
        None => UNNAMED_PROXY@,
    }
}

/// `fields` with a value for a key, if there is one.
pub open spec fn put(
    fields: Map<Seq<char>, Yaml>,
    key: Seq<char>,
    value: Option<Yaml>,
) -> Map<Seq<char>, Yaml> {
    match value {
        Some(value) => fields.insert(key, value),
        None => fields,
    }
}

/// The value of a key, if there is one.
pub open spec fn field(fields: Map<Seq<char>, Yaml>, key: Seq<char>) -> Option<Yaml> {
    if fields.contains_key(key) {
        Some(fields[key])
    } else {
        None
    }
}

/// The last value that a query gives to a key, as a document.
pub open spec fn last_value(query: Seq<(Seq<char>, Seq<char>)>, key: Seq<char>) -> Option<Yaml>
    decreases query.len(),
{
    if query.len() == 0 {
        None
    } else if query.last().0 == key {
        Some(Yaml::Text(query.last().1))
    } else {
        last_value(query.drop_last(), key)
    }
}

/// Whether a pair of a query asks for TLS.
pub open spec fn asks_tls(pair: (Seq<char>, Seq<char>)) -> bool {
    pair.0 == "security"@ && (pair.1 == "reality"@ || pair.1 == "tls"@)
}

/// The mark for TLS, if a query asks for it.
pub open spec fn tls_mark(query: Seq<(Seq<char>, Seq<char>)>) -> Option<Yaml> {
    if exists|i: int| 0 <= i < query.len() && asks_tls(#[trigger] query[i]) {
        Some(Yaml::Bool(true))
    } else {
        None
    }
}

/// The fields that every proxy has.
pub open spec fn common_fields(link: LinkParts, name: Seq<char>) -> Map<Seq<char>, Yaml> {
    Map::<Seq<char>, Yaml>::empty().insert("name"@, Yaml::Text(name)).insert(
        "type"@,
        Yaml::Text(link.scheme),
    ).insert(
        "server"@,
        Yaml::Text(
            match link.host {
                Some(host) => host,
                None => seq![],
            },
        ),
    ).insert(
        "port"@,
        Yaml::Integer(
            match link.port {
                Some(port) => port as int,
                None => DEFAULT_PORT as int,
            },
        ),
    ).insert("udp"@, Yaml::Bool(true))
}

/// The options for REALITY that a query gives.
pub open spec fn reality_fields(query: Seq<(Seq<char>, Seq<char>)>) -> Map<Seq<char>, Yaml> {
    put(
        put(Map::<Seq<char>, Yaml>::empty(), "public-key"@, last_value(query, "pbk"@)),
        "short-id"@,
        last_value(query, "sid"@),
    )
}

/// The fields of the transport that a query asks for, added to `fields`.
pub open spec fn transport_fields(
    fields: Map<Seq<char>, Yaml>,
    query: Seq<(Seq<char>, Seq<char>)>,
) -> Map<Seq<char>, Yaml> {
    put(
        put(
            put(put(fields, "tls"@, tls_mark(query)), "flow"@, last_value(query, "flow"@)),
            "servername"@,
            last_value(query, "sni"@),
        ),
        "client-fingerprint"@,
        last_value(query, "fp"@),
    )
}

/// The fields of a VLESS or Trojan proxy, added to `fields`.
pub open spec fn vless_fields(
    fields: Map<Seq<char>, Yaml>,
    username: Seq<char>,
    query: Seq<(Seq<char>, Seq<char>)>,
) -> Map<Seq<char>, Yaml> {
    put(
        transport_fields(fields.insert("uuid"@, Yaml::Text(username)), query),
        "reality-opts"@,
        if reality_fields(query) == Map::<Seq<char>, Yaml>::empty() {
            None
        } else {
            Some(crate::fields::mapping_of(reality_fields(query)))
        },
    )
}

/// The texts before and after the first occurrence of a character.
pub open spec fn split_text(text: Seq<char>, delimiter: char) -> Option<(Seq<char>, Seq<char>)>
    decreases text.len(),
{
    if text.len() == 0 {
        None
    } else if text[0] == delimiter {
        Some((seq![], text.drop_first()))
    } else {
        match split_text(text.drop_first(), delimiter) {
            Some((head, tail)) => Some((seq![text[0]] + head, tail)),
            None => None,
        }
    }
}

/// The fields of a Shadowsocks proxy, added to `fields`: the cipher and the
/// password, where the user part of the link gives both.
pub open spec fn shadowsocks_fields(
    fields: Map<Seq<char>, Yaml>,
    user: Option<Seq<char>>,
) -> Map<Seq<char>, Yaml> {
    match user {
        Some(text) => match split_text(text, ':') {
            Some((cipher, password)) => fields.insert("cipher"@, Yaml::Text(cipher)).insert(
                "password"@,
                Yaml::Text(password),
            ),
            None => fields,
        },
        None => fields,
    }
}

/// The fields of a VMess proxy, added to `fields`: those that the object in the
/// link gives, under their names in a profile.
pub open spec fn vmess_fields(
    fields: Map<Seq<char>, Yaml>,
    object: Option<Map<Seq<char>, Yaml>>,
) -> Map<Seq<char>, Yaml> {
    match object {
        Some(given) => put(
            put(
                put(
                    put(
                        put(
                            put(fields, "server"@, field(given, "add"@)),
                            "port"@,
                            field(given, "port"@),
                        ),
                        "uuid"@,
                        field(given, "id"@),
                    ),
                    "alterId"@,
                    field(given, "aid"@),
                ),
                "network"@,
                field(given, "net"@),
            ),
            "name"@,
            field(given, "ps"@),
        ),
        None => fields,
    }
}

/// The fields of the proxy that a link describes.
pub open spec fn proxy_fields(link: LinkParts, name: Seq<char>) -> Map<Seq<char>, Yaml> {
    let common = common_fields(link, name);
    if link.scheme == "vless"@ || link.scheme == "trojan"@ {
        vless_fields(common, link.username, link.query)
    } else if link.scheme == "ss"@ {
        shadowsocks_fields(common, crate::link::decoded_text(link.username))
    } else if link.scheme == "vmess"@ {
        vmess_fields(
            common,
            crate::link::decoded_object(
                match link.host {
                    Some(host) => host,
                    None => seq![],
                },
            ),
        )
    } else {
        common
    }
}

/// The profile for a proxy with these fields, made from a template: its name and
/// its document, or the message of the error.
pub open spec fn profile_from_template(
    template: Seq<char>,
    fields: Map<Seq<char>, Yaml>,
    name: Seq<char>,
) -> Result<LocalProfileView, Seq<char>> {
    match crate::yaml::yaml_parsed(template) {
        Ok(tree) => match crate::yaml::yaml_rendered(
            crate::template::filled(tree, crate::fields::mapping_of(fields), name),
        ) {
            Ok(text) => Ok(LocalProfileView { name, desc: PROFILE_DESCRIPTION@, file_data: text }),
            Err(message) => Err(message),
        },
        Err(message) => Err(message),
    }
}

/// The profile that a share link describes, or the message of the error.
pub open spec fn profile_from_link(
    link: Seq<char>,
    template_name: Seq<char>,
) -> Result<LocalProfileView, Seq<char>> {
    match crate::link::link_parts(link) {
        Ok(parts) => {
            let name = proxy_name(parts.fragment);
            profile_from_template(
                crate::template::template_text(template_name),
                proxy_fields(parts, name),
                name,
            )
        },
        Err(message) => Err(message),
    }
}

/// The keys of queries and of fields that a transport is described with differ.
proof fn lemma_transport_keys_differ()
    ensures
        "security"@ != "flow"@,
        "security"@ != "sni"@,
        "security"@ != "fp"@,
        "security"@ != "pbk"@,
        "security"@ != "sid"@,
        "flow"@ != "sni"@,
        "flow"@ != "fp"@,
        "flow"@ != "pbk"@,
        "flow"@ != "sid"@,
        "sni"@ != "fp"@,
        "sni"@ != "pbk"@,
        "sni"@ != "sid"@,
        "fp"@ != "pbk"@,
        "fp"@ != "sid"@,
        "pbk"@ != "sid"@,
        "tls"@ != "flow"@,
        "tls"@ != "servername"@,
        "tls"@ != "client-fingerprint"@,
        "flow"@ != "servername"@,
        "flow"@ != "client-fingerprint"@,
        "servername"@ != "client-fingerprint"@,
        "public-key"@ != "short-id"@,
{
    reveal_strlit("security");
    reveal_strlit("flow");
    reveal_strlit("sni");
    reveal_strlit("fp");
    reveal_strlit("pbk");
    reveal_strlit("sid");
    reveal_strlit("tls");
    reveal_strlit("servername");
    reveal_strlit("client-fingerprint");
    reveal_strlit("public-key");
    reveal_strlit("short-id");
    assert("security"@.len() == 8);
    assert("flow"@.len() == 4);
    assert("fp"@.len() == 2);
    assert("tls"@.len() == 3);
    assert("servername"@.len() == 10);
    assert("client-fingerprint"@.len() == 18);
    assert("public-key"@.len() == 10);
    assert("short-id"@.len() == 8);
    assert("sni"@[1] != "sid"@[1]);
    assert("sni"@[0] != "pbk"@[0]);
    assert("sid"@[0] != "pbk"@[0]);
}

/// What one more pair of a query adds to the last value of a key.
proof fn lemma_last_value_push(
    query: Seq<(Seq<char>, Seq<char>)>,
    pair: (Seq<char>, Seq<char>),
    key: Seq<char>,
)
    ensures
        last_value(query.push(pair), key) == if pair.0 == key {
            Some(Yaml::Text(pair.1))
        } else {
            last_value(query, key)
        },
{
    assert(query.push(pair).drop_last() =~= query);
}

/// What one more pair of a query adds to the fields of the transport and to the
/// options for REALITY.
proof fn lemma_transport_push(
    fields: Map<Seq<char>, Yaml>,
    query: Seq<(Seq<char>, Seq<char>)>,
    pair: (Seq<char>, Seq<char>),
)
    ensures
        transport_fields(fields, query.push(pair)) == if asks_tls(pair) {
            transport_fields(fields, query).insert("tls"@, Yaml::Bool(true))
        } else if pair.0 == "flow"@ {
            transport_fields(fields, query).insert("flow"@, Yaml::Text(pair.1))
        } else if pair.0 == "sni"@ {
            transport_fields(fields, query).insert("servername"@, Yaml::Text(pair.1))
        } else if pair.0 == "fp"@ {
            transport_fields(fields, query).insert("client-fingerprint"@, Yaml::Text(pair.1))
        } else {
            transport_fields(fields, query)
        },
        reality_fields(query.push(pair)) == if pair.0 == "pbk"@ {
            reality_fields(query).insert("public-key"@, Yaml::Text(pair.1))
        } else if pair.0 == "sid"@ {
            reality_fields(query).insert("short-id"@, Yaml::Text(pair.1))
        } else {
            reality_fields(query)
        },
{
    lemma_transport_keys_differ();
    lemma_last_value_push(query, pair, "flow"@);
    lemma_last_value_push(query, pair, "sni"@);
    lemma_last_value_push(query, pair, "fp"@);
    lemma_last_value_push(query, pair, "pbk"@);
    lemma_last_value_push(query, pair, "sid"@);
    let longer = query.push(pair);
    assert(tls_mark(longer) == if asks_tls(pair) {
        Some(Yaml::Bool(true))
    } else {
        tls_mark(query)
    }) by {
        if asks_tls(pair) {
            assert(asks_tls(longer[query.len() as int]));
        } else if exists|i: int| 0 <= i < query.len() && asks_tls(#[trigger] query[i]) {
            let i = choose|i: int| 0 <= i < query.len() && asks_tls(#[trigger] query[i]);
            assert(asks_tls(longer[i]));
        }
    }
    let before = transport_fields(fields, query);
    let after = transport_fields(fields, longer);
    if asks_tls(pair) {
        assert(after =~= before.insert("tls"@, Yaml::Bool(true)));
    } else if pair.0 == "flow"@ {
        assert(after =~= before.insert("flow"@, Yaml::Text(pair.1)));
    } else if pair.0 == "sni"@ {
        assert(after =~= before.insert("servername"@, Yaml::Text(pair.1)));
    } else if pair.0 == "fp"@ {
        assert(after =~= before.insert("client-fingerprint"@, Yaml::Text(pair.1)));
    }
    if pair.0 == "pbk"@ {
        assert(reality_fields(longer) =~= reality_fields(query).insert(
            "public-key"@,
            Yaml::Text(pair.1),
        ));
    } else if pair.0 == "sid"@ {
        assert(reality_fields(longer) =~= reality_fields(query).insert(
            "short-id"@,
            Yaml::Text(pair.1),
        ));
    }
}

/// A text that is split at the first occurrence of a character has these parts.
proof fn lemma_split_text(text: Seq<char>, delimiter: char, head: Seq<char>, tail: Seq<char>)
    requires
        !head.contains(delimiter),
        text == head.push(delimiter) + tail,
    ensures
        split_text(text, delimiter) == Some((head, tail)),
    decreases head.len(),
{
    if head.len() == 0 {
        assert(text.drop_first() =~= tail);
        assert(head =~= seq![]);
    } else {
        assert(head[0] != delimiter);
        let rest = head.drop_first();
        assert forall|i: int| 0 <= i < rest.len() implies rest[i] != delimiter by {
            assert(head[i + 1] != delimiter);
        }
        assert(text.drop_first() =~= rest.push(delimiter) + tail);
        lemma_split_text(text.drop_first(), delimiter, rest, tail);
        assert(seq![text[0]] + rest =~= head);
    }
}

/// A text without a character cannot be split there.
proof fn lemma_split_nothing(text: Seq<char>, delimiter: char)
    requires
        !text.contains(delimiter),
    ensures
        split_text(text, delimiter) is None,
    decreases text.len(),
{
    if text.len() > 0 {
        assert(text[0] != delimiter);
        let rest = text.drop_first();
        assert forall|i: int| 0 <= i < rest.len() implies rest[i] != delimiter by {
            assert(text[i + 1] != delimiter);
        }
        lemma_split_nothing(rest, delimiter);
    }
}

/// Gives a key a text as its value.
fn set_text(fields: &mut Fields, key: &str, text: &str)
    requires
        old(fields).well_formed(),
    ensures
        final(fields).well_formed(),
        final(fields)@ == old(fields)@.insert(key@, Yaml::Text(text@)),
{
    fields.insert(key, text_value(text.to_string()));
}

/// The name of the proxy of a link with this fragment. Without percent signs the
/// fragment is the name as it stands.
pub fn link_name(fragment: &Option<String>) -> (name: String)
    ensures
        name@ == proxy_name(crate::profiles::text_of(*fragment)),
        match fragment {
            Some(text) => !text@.contains('%') ==> name@ == text@,
            None => name@ == UNNAMED_PROXY@,
        },
{
    match fragment {
        Some(text) => percent_decode(text.as_str()),
        None => UNNAMED_PROXY.to_string(),
    }
}

/// The fields that every proxy has.
pub fn start_fields(link: &ShareLink, name: &str) -> (fields: Fields)
    ensures
        fields.well_formed(),
        fields@ == common_fields(link@, name@),
{
    let mut fields = Fields::new();
    set_text(&mut fields, "name", name);
    set_text(&mut fields, "type", link.scheme.as_str());
    match &link.host {
        Some(host) => set_text(&mut fields, "server", host.as_str()),
        None => {
            let nothing = String::new();
            assert(nothing@ =~= seq![]);
            set_text(&mut fields, "server", nothing.as_str());
        },
    }
    let port: u16 = match link.port {
        Some(port) => port,
        None => DEFAULT_PORT,
    };
    fields.insert("port", number_value(port));
    fields.insert("udp", bool_value(true));
    fields
}

/// Adds the fields of a VLESS or Trojan proxy.
pub fn add_vless_fields(
    fields: &mut Fields,
    username: &str,
    query: &Vec<(String, String)>,
) -> (added: Result<(), String>)
    requires
        old(fields).well_formed(),
    ensures
        added is Ok,
        final(fields).well_formed(),
        final(fields)@ == vless_fields(
            old(fields)@,
            username@,
            query@.map_values(|pair: (String, String)| (pair.0@, pair.1@)),
        ),
{
    let ghost pairs = query@.map_values(|pair: (String, String)| (pair.0@, pair.1@));
    set_text(fields, "uuid", username);
    let ghost start = fields@;
    let mut reality = Fields::new();
    let mut i: usize = 0;
    proof {
        assert(pairs.take(0) =~= seq![]);
        assert(tls_mark(pairs.take(0)) is None);
    }
    while i < query.len()
        invariant
            i <= query@.len(),
            pairs == query@.map_values(|pair: (String, String)| (pair.0@, pair.1@)),
            fields.well_formed(),
            reality.well_formed(),
            fields@ == transport_fields(start, pairs.take(i as int)),
            reality@ == reality_fields(pairs.take(i as int)),
        decreases query@.len() - i,
    {
        let key: &str = query[i].0.as_str();
        let value: &str = query[i].1.as_str();
        proof {
            assert(pairs.take(i + 1) =~= pairs.take(i as int).push(pairs[i as int]));
            lemma_transport_push(start, pairs.take(i as int), pairs[i as int]);
            lemma_transport_keys_differ();
        }
        if same_text(key, "security") {
            if same_text(value, "reality") || same_text(value, "tls") {
                fields.insert("tls", bool_value(true));
            }
        } else if same_text(key, "flow") {
            set_text(fields, "flow", value);
        } else if same_text(key, "sni") {
            set_text(fields, "servername", value);
        } else if same_text(key, "fp") {
            set_text(fields, "client-fingerprint", value);
        } else if same_text(key, "pbk") {
            set_text(&mut reality, "public-key", value);
        } else if same_text(key, "sid") {
            set_text(&mut reality, "short-id", value);
        }
        i = i + 1;
    }
    assert(pairs.take(pairs.len() as int) =~= pairs);
    if !reality.is_empty() {
        let options = reality.into_value()?;
        fields.insert("reality-opts", options);
    }
    Ok(())
}

/// Adds the fields of a Shadowsocks proxy; `user` is the decoded user part of the
/// link.
pub fn add_shadowsocks_fields(fields: &mut Fields, user: &Option<String>)
    requires
        old(fields).well_formed(),
    ensures
        final(fields).well_formed(),
        final(fields)@ == shadowsocks_fields(old(fields)@, crate::profiles::text_of(*user)),
{
    if let Some(text) = user {
        match split_first(text.as_str(), ':') {
            Some((cipher, password)) => {
                proof {
                    lemma_split_text(text@, ':', cipher@, password@);
                }
                set_text(fields, "cipher", cipher);
                set_text(fields, "password", password);
            },
            None => {
                proof {
                    lemma_split_nothing(text@, ':');
                }
            },
        }
    }
}

/// Gives `key` the value that `given` has for `source`, if it has one.
fn copy_field(fields: &mut Fields, key: &str, given: &Fields, source: &str)
    requires
        old(fields).well_formed(),
        given.well_formed(),
    ensures
        final(fields).well_formed(),
        final(fields)@ == put(old(fields)@, key@, field(given@, source@)),
{
    if let Some(value) = given.get(source) {
        fields.insert(key, copy_value(value));
    }
}

/// Adds the fields of a VMess proxy; `object` is the decoded object in the link.
pub fn add_vmess_fields(fields: &mut Fields, object: &Option<Fields>)
    requires
        old(fields).well_formed(),
        *object matches Some(given) ==> given.well_formed(),
    ensures
        final(fields).well_formed(),
        final(fields)@ == vmess_fields(old(fields)@, crate::link::fields_of(*object)),
{
    if let Some(given) = object {
        copy_field(fields, "server", given, "add");
        copy_field(fields, "port", given, "port");
        copy_field(fields, "uuid", given, "id");
        copy_field(fields, "alterId", given, "aid");
        copy_field(fields, "network", given, "net");
        copy_field(fields, "name", given, "ps");
    }
}

/// The fields of the proxy that a link describes.
pub fn describe_proxy(link: &ShareLink, name: &str) -> (fields: Result<Fields, String>)
    ensures
        match fields {
            Ok(fields) => fields.well_formed() && fields@ == proxy_fields(link@, name@),
            Err(_) => false,
        },
{
    let mut fields = start_fields(link, name);
    let scheme: &str = link.scheme.as_str();
    if same_text(scheme, "vless") || same_text(scheme, "trojan") {
        add_vless_fields(&mut fields, link.username.as_str(), &link.query)?;
    } else if same_text(scheme, "ss") {
        let user: Option<String> = decode_text(link.username.as_str());
        add_shadowsocks_fields(&mut fields, &user);
    } else if same_text(scheme, "vmess") {
        let object: Option<Fields> = match &link.host {
            Some(host) => decode_object(host.as_str()),
            None => {
                let nothing = String::new();
                assert(nothing@ =~= seq![]);
                decode_object(nothing.as_str())
            },
        };
        add_vmess_fields(&mut fields, &object);
    }
    Ok(fields)
}

/// Makes the profile for a proxy with these fields from a template.
pub fn build_profile(template: &str, fields: Fields, name: String) -> (profile: Result<
    LocalProfile,
    String,
>)
    requires
        fields.well_formed(),
    ensures
        match profile {
            Ok(made) => profile_from_template(template@, fields@, name@) == Ok::<
                LocalProfileView,
                Seq<char>,
            >(made@),
            Err(message) => profile_from_template(template@, fields@, name@) == Err::<
                LocalProfileView,
                Seq<char>,
            >(message@),
        },
{
    let mut config = parse_yaml(template)?;
    let proxy = fields.into_value()?;
    fill_template(&mut config, proxy, name.as_str());
    let file_data: String = render_yaml(&config)?;
    Ok(LocalProfile { name, desc: PROFILE_DESCRIPTION.to_string(), file_data })
}

/// Makes a profile from a share link and the template with this name.
pub fn create_profile_from_share_link(link: String, template_name: String) -> (profile: Result<
    LocalProfile,
    String,
>)
    ensures
        match profile {
            Ok(made) => profile_from_link(link@, template_name@) == Ok::<
                LocalProfileView,
                Seq<char>,
            >(made@),
            Err(message) => profile_from_link(link@, template_name@) == Err::<
                LocalProfileView,
                Seq<char>,
            >(message@),
        },
        profile matches Ok(made) ==> match crate::link::link_parts(link@) {
            Ok(parts) => match parts.fragment {
                Some(text) => !text.contains('%') ==> made.name@ == text,
                None => made.name@ == UNNAMED_PROXY@,
            },
            Err(_) => false,
        },
{
    let template: &str = choose_template(template_name.as_str());
    let parts = parse_link(link.as_str())?;
    let name: String = link_name(&parts.fragment);
    let fields = describe_proxy(&parts, name.as_str())?;
    build_profile(template, fields, name)
}

} // verus!
