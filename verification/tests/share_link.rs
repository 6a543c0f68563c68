//! Profiles made from share links.

use profile_commands::fields::Fields;
use profile_commands::link::{decode_object, decode_text, ShareLink};
use profile_commands::share_link::{
    add_shadowsocks_fields, add_vless_fields, add_vmess_fields, build_profile,
    create_profile_from_share_link, describe_proxy, link_name, start_fields, LocalProfile,
};
use serde_yaml::Value;

const VLESS: &str = "vless://0a1b@example.com:8443?security=reality&type=tcp&flow=xtls-rprx-vision&sni=front.example&fp=chrome&pbk=PUBLIC&sid=01#My%20Node";

fn make(link: &str, template: &str) -> LocalProfile {
    create_profile_from_share_link(link.to_string(), template.to_string()).unwrap()
}

fn document(profile: &LocalProfile) -> Value {
    serde_yaml::from_str(&profile.file_data).unwrap()
}

fn only_proxy(profile: &LocalProfile) -> Value {
    let document = document(profile);
    let proxies = document.get("proxies").unwrap().as_sequence().unwrap();
    assert_eq!(proxies.len(), 1);
    proxies[0].clone()
}

fn group_members(profile: &LocalProfile, at: usize) -> Vec<String> {
    let document = document(profile);
    let groups = document.get("proxy-groups").unwrap().as_sequence().unwrap();
    let members = groups[at].get("proxies").unwrap().as_sequence().unwrap();
    members.iter().map(|member| member.as_str().unwrap().to_string()).collect()
}

fn keys(value: &Value) -> Vec<String> {
    let mapping = value.as_mapping().unwrap();
    mapping.keys().map(|key| key.as_str().unwrap().to_string()).collect()
}

fn link(scheme: &str) -> ShareLink {
    ShareLink {
        scheme: scheme.to_string(),
        username: String::new(),
        host: None,
        port: None,
        query: Vec::new(),
        fragment: None,
    }
}

fn fields_as_value(fields: Fields) -> Value {
    fields.into_value().unwrap()
}

#[test]
fn vless_link_fills_the_default_template() {
    let profile = make(VLESS, "default");
    assert_eq!(profile.name, "My Node");
    assert_eq!(profile.desc, "Created from share link");
    let proxy = only_proxy(&profile);
    assert_eq!(
        keys(&proxy),
        vec![
            "client-fingerprint",
            "flow",
            "name",
            "port",
            "reality-opts",
            "server",
            "servername",
            "tls",
            "type",
            "udp",
            "uuid",
        ]
    );
    assert_eq!(proxy["name"], Value::from("My Node"));
    assert_eq!(proxy["type"], Value::from("vless"));
    assert_eq!(proxy["server"], Value::from("example.com"));
    assert_eq!(proxy["port"], Value::from(8443u16));
    assert_eq!(proxy["udp"], Value::from(true));
    assert_eq!(proxy["uuid"], Value::from("0a1b"));
    assert_eq!(proxy["tls"], Value::from(true));
    assert_eq!(proxy["flow"], Value::from("xtls-rprx-vision"));
    assert_eq!(proxy["servername"], Value::from("front.example"));
    assert_eq!(proxy["client-fingerprint"], Value::from("chrome"));
    assert_eq!(keys(&proxy["reality-opts"]), vec!["public-key", "short-id"]);
    assert_eq!(proxy["reality-opts"]["public-key"], Value::from("PUBLIC"));
    assert_eq!(proxy["reality-opts"]["short-id"], Value::from("01"));
    assert_eq!(group_members(&profile, 0), vec!["My Node"]);
    assert_eq!(document(&profile)["mixed-port"], Value::from(2080u16));
}

#[test]
fn second_template_is_chosen_by_its_name() {
    let profile = make(VLESS, "without_ru");
    assert_eq!(document(&profile)["mixed-port"], Value::from(7890u16));
    assert_eq!(group_members(&profile, 0), vec!["⚡️ Fastest", "📶 First Available", "My Node"]);
    assert_eq!(group_members(&profile, 1), vec!["My Node"]);
    assert_eq!(group_members(&profile, 2), vec!["My Node"]);
    assert_eq!(only_proxy(&profile)["name"], Value::from("My Node"));
    let other = make(VLESS, "WITHOUT_RU");
    assert_eq!(document(&other)["mixed-port"], Value::from(2080u16));
}

#[test]
fn rest_of_the_template_is_kept() {
    let profile = make(VLESS, "");
    let filled = document(&profile);
    let template: Value =
        serde_yaml::from_str(profile_commands::template::DEFAULT_TEMPLATE).unwrap();
    assert_eq!(keys(&filled), keys(&template));
    for key in keys(&template) {
        if key != "proxies" && key != "proxy-groups" {
            assert_eq!(filled[key.as_str()], template[key.as_str()]);
        }
    }
    assert_eq!(filled["proxy-groups"][0]["name"], Value::from("PROXY"));
    assert_eq!(filled["proxy-groups"][0]["type"], Value::from("select"));
}

#[test]
fn link_without_port_or_fragment() {
    let profile = make("trojan://secret@example.com?security=none", "default");
    assert_eq!(profile.name, "Proxy from Link");
    let proxy = only_proxy(&profile);
    assert_eq!(keys(&proxy), vec!["name", "port", "server", "type", "udp", "uuid"]);
    assert_eq!(proxy["name"], Value::from("Proxy from Link"));
    assert_eq!(proxy["port"], Value::from(443u16));
    assert_eq!(proxy["uuid"], Value::from("secret"));
    assert_eq!(group_members(&profile, 0), vec!["Proxy from Link"]);
}

#[test]
fn link_with_an_empty_fragment() {
    let profile = make("trojan://secret@example.com#", "default");
    assert_eq!(profile.name, "");
    assert_eq!(group_members(&profile, 0), vec![""]);
}

#[test]
fn last_value_of_a_query_counts() {
    let proxy = only_proxy(&make("vless://u@h.example?flow=a&sid=1&flow=b&sid=2&security=x&security=tls&security=none", "d"));
    assert_eq!(proxy["flow"], Value::from("b"));
    assert_eq!(proxy["reality-opts"]["short-id"], Value::from("2"));
    assert_eq!(keys(&proxy["reality-opts"]), vec!["short-id"]);
    assert_eq!(proxy["tls"], Value::from(true));
}

#[test]
fn query_is_decoded() {
    let proxy = only_proxy(&make("vless://u@h.example?sni=a%2Eb+c&fp=%D0%B0", "d"));
    assert_eq!(proxy["servername"], Value::from("a.b c"));
    assert_eq!(proxy["client-fingerprint"], Value::from("а"));
}

#[test]
fn shadowsocks_user_is_split_at_the_first_colon() {
    let profile = make("ss://YWVzLTI1Ni1nY206cGFzczp3b3Jk@h.example:8388#S", "default");
    let proxy = only_proxy(&profile);
    assert_eq!(proxy["cipher"], Value::from("aes-256-gcm"));
    assert_eq!(proxy["password"], Value::from("pass:word"));
    assert_eq!(proxy["port"], Value::from(8388u16));
    assert_eq!(
        keys(&proxy),
        vec!["cipher", "name", "password", "port", "server", "type", "udp"]
    );
}

#[test]
fn shadowsocks_user_that_cannot_be_read_adds_nothing() {
    let common = vec!["name", "port", "server", "type", "udp"];
    for user in ["bm9jb2xvbjEy", "no-base64", "YWVzOnA=", "", "%2F%2F79"] {
        let link = format!("ss://{}@h.example:1#S", user);
        assert_eq!(keys(&only_proxy(&make(&link, "default"))), common);
    }
}

#[test]
fn vmess_object_gives_the_fields() {
    let profile = make(
        "vmess://eyJhZGQiOiIxLjIuMy40IiwicG9ydCI6IjgwODAiLCJpZCI6InVzZXItMSIsImFpZCI6MCwibmV0Ijoid3MiLCJwcyI6Ik5vZGUgTiJ9",
        "default",
    );
    let proxy = only_proxy(&profile);
    assert_eq!(
        keys(&proxy),
        vec!["alterId", "name", "network", "port", "server", "type", "udp", "uuid"]
    );
    assert_eq!(proxy["server"], Value::from("1.2.3.4"));
    assert_eq!(proxy["port"], Value::from("8080"));
    assert_eq!(proxy["uuid"], Value::from("user-1"));
    assert_eq!(proxy["alterId"], Value::from(0u16));
    assert_eq!(proxy["network"], Value::from("ws"));
    assert_eq!(proxy["name"], Value::from("Node N"));
    assert_eq!(profile.name, "Proxy from Link");
    assert_eq!(group_members(&profile, 0), vec!["Proxy from Link"]);
}

#[test]
fn vmess_object_with_one_member_and_padding() {
    let proxy = only_proxy(&make("vmess://eyJhZGQiOiIxLjIuMy40In0=#N", "default"));
    assert_eq!(proxy["server"], Value::from("1.2.3.4"));
    assert_eq!(proxy["port"], Value::from(443u16));
    assert_eq!(proxy["name"], Value::from("N"));
}

#[test]
fn vmess_host_that_is_no_object_stays_the_server() {
    for host in ["WyJub3QgYW4gb2JqZWN0Il0=", "bm90IGpzb24=", "h.example"] {
        let link = format!("vmess://{}:9#N", host);
        let proxy = only_proxy(&make(&link, "default"));
        assert_eq!(proxy["server"], Value::from(host));
        assert_eq!(proxy["port"], Value::from(9u16));
        assert_eq!(keys(&proxy), vec!["name", "port", "server", "type", "udp"]);
    }
}

#[test]
fn other_schemes_have_the_common_fields_alone() {
    let proxy = only_proxy(&make("hysteria2://u@h.example:1?sni=x&security=tls#H", "default"));
    assert_eq!(keys(&proxy), vec!["name", "port", "server", "type", "udp"]);
    assert_eq!(proxy["type"], Value::from("hysteria2"));
}

#[test]
fn text_that_is_no_link_is_an_error() {
    let made = create_profile_from_share_link("no link".to_string(), "default".to_string());
    assert_eq!(made, Err(url::Url::parse("no link").unwrap_err().to_string()));
    assert_eq!(made, Err("relative URL without a base".to_string()));
}

#[test]
fn text_that_is_no_template_is_an_error() {
    let made = build_profile("a: [", Fields::new(), "n".to_string());
    let message = serde_yaml::from_str::<Value>("a: [").unwrap_err().to_string();
    assert_eq!(made, Err(message));
}

#[test]
fn template_without_proxies_or_groups_is_kept() {
    let made = build_profile("a: 1\nproxies: 2\n", Fields::new(), "n".to_string()).unwrap();
    assert_eq!(
        made,
        LocalProfile {
            name: "n".to_string(),
            desc: "Created from share link".to_string(),
            file_data: "a: 1\nproxies: 2\n".to_string(),
        }
    );
}

#[test]
fn template_is_filled_in_for_given_fields() {
    let mut fields = Fields::new();
    fields.insert("name", Value::from("x"));
    fields.insert("a", Value::from(1u16));
    let template = "proxies: [old, older]\nproxy-groups:\n- name: G\n  proxies: [myproxy, DIRECT, myproxy]\n- plain\n- proxies: none\n";
    let made = build_profile(template, fields, "x".to_string()).unwrap();
    assert_eq!(
        made.file_data,
        "proxies:\n- a: 1\n  name: x\nproxy-groups:\n- name: G\n  proxies:\n  - x\n  - DIRECT\n  - x\n- plain\n- proxies: none\n"
    );
}

#[test]
fn tagged_parts_of_a_template_are_seen() {
    let mut config: Value =
        serde_yaml::from_str("proxies: !t [old]\nproxy-groups: !g\n- !h\n  proxies: !i [!j myproxy, b]\n")
            .unwrap();
    profile_commands::template::fill_template(&mut config, Value::from("p"), "n");
    let expected: Value =
        serde_yaml::from_str("proxies: !t [p]\nproxy-groups: !g\n- !h\n  proxies: !i [n, b]\n")
            .unwrap();
    assert_eq!(config, expected);
}

#[test]
fn names_of_links() {
    assert_eq!(link_name(&Some("a%20%D1%8F".to_string())), "a я");
    assert_eq!(link_name(&Some("plain+text".to_string())), "plain+text");
    assert_eq!(link_name(&Some("%FF".to_string())), "\u{fffd}");
    assert_eq!(link_name(&None), "Proxy from Link");
}

#[test]
fn texts_in_base64() {
    assert_eq!(decode_text("aGk="), Some("hi".to_string()));
    assert_eq!(decode_text("0L/RgNC40LLQtdGC"), Some("привет".to_string()));
    assert_eq!(decode_text(""), Some(String::new()));
    assert_eq!(decode_text("aGk"), None);
    assert_eq!(decode_text("//79"), None);
}

#[test]
fn objects_in_base64() {
    let object = decode_object("eyJhZGQiOiIxLjIuMy40In0=").unwrap();
    assert_eq!(object.get("add"), Some(&Value::from("1.2.3.4")));
    assert_eq!(object.get("port"), None);
    assert!(!object.is_empty());
    assert!(decode_object("bm90IGpzb24=").is_none());
    assert!(decode_object("WyJub3QgYW4gb2JqZWN0Il0=").is_none());
    assert!(decode_object("!").is_none());
}

#[test]
fn fields_are_kept_in_the_order_of_their_keys() {
    let mut fields = Fields::new();
    assert!(fields.is_empty());
    for key in ["b", "a", "ab", "é", "b", "", "Z"] {
        fields.insert(key, Value::from(key.len() as u16));
    }
    fields.insert("a", Value::from(true));
    assert_eq!(fields.get("a"), Some(&Value::from(true)));
    assert_eq!(fields.get("c"), None);
    let value = fields_as_value(fields);
    assert_eq!(keys(&value), vec!["", "Z", "a", "ab", "b", "é"]);
    assert_eq!(value["é"], Value::from(2u16));
}

#[test]
fn single_field_whose_key_looks_like_a_tag_stays_a_field() {
    let mut fields = Fields::new();
    fields.insert("!tag", Value::from("x"));
    assert_eq!(keys(&fields_as_value(fields)), vec!["!tag"]);
}

#[test]
fn proxy_is_described_from_the_parts_of_a_link() {
    let mut parts = link("vless");
    parts.username = "u".to_string();
    parts.query.push(("security".to_string(), "tls".to_string()));
    parts.query.push(("pbk".to_string(), "k".to_string()));
    let proxy = fields_as_value(describe_proxy(&parts, "n").unwrap());
    assert_eq!(
        keys(&proxy),
        vec!["name", "port", "reality-opts", "server", "tls", "type", "udp", "uuid"]
    );
    assert_eq!(proxy["server"], Value::from(""));
    assert_eq!(proxy["port"], Value::from(443u16));
    assert_eq!(keys(&proxy["reality-opts"]), vec!["public-key"]);
}

#[test]
fn fields_of_each_scheme() {
    let mut vless = start_fields(&link("vless"), "n");
    assert_eq!(add_vless_fields(&mut vless, "u", &Vec::new()), Ok(()));
    assert_eq!(keys(&fields_as_value(vless)), vec!["name", "port", "server", "type", "udp", "uuid"]);

    let mut shadowsocks = start_fields(&link("ss"), "n");
    add_shadowsocks_fields(&mut shadowsocks, &Some(":".to_string()));
    assert_eq!(shadowsocks.get("cipher"), Some(&Value::from("")));
    assert_eq!(shadowsocks.get("password"), Some(&Value::from("")));

    let mut vmess = start_fields(&link("vmess"), "n");
    add_vmess_fields(&mut vmess, &None);
    assert_eq!(keys(&fields_as_value(vmess)), vec!["name", "port", "server", "type", "udp"]);

    let mut object = Fields::new();
    object.insert("ps", Value::Null);
    object.insert("name", Value::from("unused"));
    let mut renamed = start_fields(&link("vmess"), "n");
    add_vmess_fields(&mut renamed, &Some(object));
    assert_eq!(renamed.get("name"), Some(&Value::Null));
}

/// Checks that each group lists `proxy`, and besides it only groups.
fn groups_refer_to(document: &Value, proxy: &str) {
    let groups = document["proxy-groups"].as_sequence().unwrap();
    let names: Vec<&Value> = groups.iter().map(|group| &group["name"]).collect();
    for group in groups {
        let members = group["proxies"].as_sequence().unwrap();
        assert!(members.contains(&Value::from(proxy)));
        for member in members {
            assert!(member == &Value::from(proxy) || names.contains(&member));
        }
    }
}

#[test]
fn groups_refer_to_the_proxy_and_to_groups_alone() {
    let templates = [
        ("default", profile_commands::template::DEFAULT_TEMPLATE),
        ("without_ru", profile_commands::template::WITHOUT_RU_TEMPLATE),
    ];
    for (name, template) in templates {
        groups_refer_to(&serde_yaml::from_str(template).unwrap(), "myproxy");
        let profile = make(VLESS, name);
        assert_eq!(only_proxy(&profile)["name"], Value::from(profile.name.as_str()));
        groups_refer_to(&document(&profile), "My Node");
        assert!(!group_members(&profile, 0).contains(&"myproxy".to_string()));
        let same = make("trojan://s@h.example#myproxy", name);
        groups_refer_to(&document(&same), "myproxy");
    }
}
