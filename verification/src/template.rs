//! The documents that a profile made from a share link starts from, and filling
//! one in.

use crate::yaml::{
    copy_value, entry_mut, items_mut, mapping_mut, member_mut, text_value, value_text, Yaml,
};
use vstd::prelude::*;

verus! {

/// The template that is used unless another is asked for.
pub const DEFAULT_TEMPLATE: &'static str = r#"
    mixed-port: 2080
    allow-lan: true
    tcp-concurrent: true
    enable-process: true
    find-process-mode: always
    global-client-fingerprint: chrome
    mode: rule
    log-level: debug
    ipv6: false
    keep-alive-interval: 30
    unified-delay: false
    profile:
      store-selected: true
      store-fake-ip: true
    sniffer:
      enable: true
      sniff:
        HTTP:
          ports: [80, 8080-8880]
          override-destination: true
        TLS:
          ports: [443, 8443]
        QUIC:
          ports: [443, 8443]
    tun:
      enable: true
      stack: mixed
      dns-hijack: ['any:53']
      auto-route: true
      auto-detect-interface: true
      strict-route: true
    dns:
      enable: true
      listen: :1053
      prefer-h3: false
      ipv6: false
      enhanced-mode: fake-ip
      fake-ip-filter: ['+.lan', '+.local']
      nameserver: ['https://doh.dns.sb/dns-query']
    proxies:
      - name: myproxy
        type: vless
        server: YOURDOMAIN
        port: 443
        uuid: YOURUUID
        network: tcp
        flow: xtls-rprx-vision
        udp: true
        tls: true
        reality-opts:
          public-key: YOURPUBLIC
          short-id: YOURSHORTID
        servername: YOURREALITYDEST
        client-fingerprint: chrome
    proxy-groups:
      - name: PROXY
        type: select
        proxies:
          - myproxy
    rule-providers:
      ru-bundle:
        type: http
        behavior: domain
        format: mrs
        url: https://github.com/legiz-ru/mihomo-rule-sets/raw/main/ru-bundle/rule.mrs
        path: ./ru-bundle/rule.mrs
        interval: 86400
      refilter_domains:
        type: http
        behavior: domain
        format: mrs
        url: https://github.com/legiz-ru/mihomo-rule-sets/raw/main/re-filter/domain-rule.mrs
        path: ./re-filter/domain-rule.mrs
        interval: 86400
      refilter_ipsum:
        type: http
        behavior: ipcidr
        format: mrs
        url: https://github.com/legiz-ru/mihomo-rule-sets/raw/main/re-filter/ip-rule.mrs
        path: ./re-filter/ip-rule.mrs
        interval: 86400
      oisd_big:
        type: http
        behavior: domain
        format: mrs
        url: https://github.com/legiz-ru/mihomo-rule-sets/raw/main/oisd/big.mrs
        path: ./oisd/big.mrs
        interval: 86400
    rules:
      - OR,((DOMAIN,ipwhois.app),(DOMAIN,ipwho.is),(DOMAIN,api.ip.sb),(DOMAIN,ipapi.co),(DOMAIN,ipinfo.io)),PROXY
      - RULE-SET,oisd_big,REJECT
      - PROCESS-NAME,Discord.exe,PROXY
      - RULE-SET,ru-bundle,PROXY
      - RULE-SET,refilter_domains,PROXY
      - RULE-SET,refilter_ipsum,PROXY
      - MATCH,DIRECT
    "#;

/// The template for use without the rule sets for one country.
pub const WITHOUT_RU_TEMPLATE: &'static str = r#"
    mixed-port: 7890
    allow-lan: true
    tcp-concurrent: true
    enable-process: true
    find-process-mode: always
    mode: rule
    log-level: debug
    ipv6: false
    keep-alive-interval: 30
    unified-delay: false
    profile:
      store-selected: true
      store-fake-ip: true
    sniffer:
      enable: true
      force-dns-mapping: true
      parse-pure-ip: true
      sniff:
        HTTP:
          ports:
            - 80
            - 8080-8880
          override-destination: true
        TLS:
          ports:
            - 443
            - 8443
    tun:
      enable: true
      stack: gvisor
      auto-route: true
      auto-detect-interface: false
      dns-hijack:
        - any:53
      strict-route: true
      mtu: 1500
    dns:
      enable: true
      prefer-h3: true
      use-hosts: true
      use-system-hosts: true
      listen: 127.0.0.1:6868
      ipv6: false
      enhanced-mode: redir-host
      default-nameserver:
        - tls://1.1.1.1
        - tls://1.0.0.1
      proxy-server-nameserver:
        - tls://1.1.1.1
        - tls://1.0.0.1
      direct-nameserver:
        - tls://77.88.8.8
      nameserver:
        - https://cloudflare-dns.com/dns-query

    proxies:
      - name: myproxy
        type: vless
        server: YOURDOMAIN
        port: 443
        uuid: YOURUUID
        network: tcp
        flow: xtls-rprx-vision
        udp: true
        tls: true
        reality-opts:
          public-key: YOURPUBLIC
          short-id: YOURSHORTID
        servername: YOURREALITYDEST
        client-fingerprint: chrome

    proxy-groups:
      - name: PROXY
        icon: https://cdn.jsdelivr.net/gh/Koolson/Qure@master/IconSet/Color/Hijacking.png
        type: select
        proxies:
          - ⚡️ Fastest
          - 📶 First Available
          - myproxy
      - name: ⚡️ Fastest
        icon: https://cdn.jsdelivr.net/gh/Koolson/Qure@master/IconSet/Color/Auto.png
        type: url-test
        tolerance: 150
        url: https://cp.cloudflare.com/generate_204
        interval: 300
        proxies:
          - myproxy
      - name: 📶 First Available
        icon: https://cdn.jsdelivr.net/gh/Koolson/Qure@master/IconSet/Color/Download.png
        type: fallback
        url: https://cp.cloudflare.com/generate_204
        interval: 300
        proxies:
          - myproxy


    rule-providers:
      torrent-trackers:
        type: http
        behavior: domain
        format: mrs
        url: https://github.com/legiz-ru/mihomo-rule-sets/raw/main/other/torrent-trackers.mrs
        path: ./rule-sets/torrent-trackers.mrs
        interval: 86400
      torrent-clients:
        type: http
        behavior: classical
        format: yaml
        url: https://github.com/legiz-ru/mihomo-rule-sets/raw/main/other/torrent-clients.yaml
        path: ./rule-sets/torrent-clients.yaml
        interval: 86400
      geosite-ru:
        type: http
        behavior: domain
        format: mrs
        url: https://github.com/MetaCubeX/meta-rules-dat/raw/meta/geo/geosite/category-ru.mrs
        path: ./geosite-ru.mrs
        interval: 86400
      xiaomi:
        type: http
        behavior: domain
        format: mrs
        url: https://github.com/MetaCubeX/meta-rules-dat/raw/meta/geo/geosite/xiaomi.mrs
        path: ./rule-sets/xiaomi.mrs
        interval: 86400
      blender:
        type: http
        behavior: domain
        format: mrs
        url: https://github.com/MetaCubeX/meta-rules-dat/raw/meta/geo/geosite/blender.mrs
        path: ./rule-sets/blender.mrs
        interval: 86400
      drweb:
        type: http
        behavior: domain
        format: mrs
        url: https://github.com/MetaCubeX/meta-rules-dat/raw/meta/geo/geosite/drweb.mrs
        path: ./rule-sets/drweb.mrs
        interval: 86400
      debian:
        type: http
        behavior: domain
        format: mrs
        url: https://github.com/MetaCubeX/meta-rules-dat/raw/meta/geo/geosite/debian.mrs
        path: ./rule-sets/debian.mrs
        interval: 86400
      canonical:
        type: http
        behavior: domain
        format: mrs
        url: https://github.com/MetaCubeX/meta-rules-dat/raw/meta/geo/geosite/canonical.mrs
        path: ./rule-sets/canonical.mrs
        interval: 86400
      python:
        type: http
        behavior: domain
        format: mrs
        url: https://github.com/MetaCubeX/meta-rules-dat/raw/meta/geo/geosite/python.mrs
        path: ./rule-sets/python.mrs
        interval: 86400
      geoip-ru:
        type: http
        behavior: ipcidr
        format: mrs
        url: https://github.com/MetaCubeX/meta-rules-dat/raw/meta/geo/geoip/ru.mrs
        path: ./geoip-ru.mrs
        interval: 86400
      geosite-private:
        type: http
        behavior: domain
        format: mrs
        url: https://github.com/MetaCubeX/meta-rules-dat/raw/meta/geo/geosite/private.mrs
        path: ./geosite-private.mrs
        interval: 86400
      geoip-private:
        type: http
        behavior: ipcidr
        format: mrs
        url: https://github.com/MetaCubeX/meta-rules-dat/raw/meta/geo/geoip/private.mrs
        path: ./geoip-private.mrs
        interval: 86400

    rules:
      - DOMAIN-SUFFIX,habr.com,PROXY
      - DOMAIN-SUFFIX,kemono.su,PROXY
      - DOMAIN-SUFFIX,jut.su,PROXY
      - DOMAIN-SUFFIX,kara.su,PROXY
      - DOMAIN-SUFFIX,theins.ru,PROXY
      - DOMAIN-SUFFIX,tvrain.ru,PROXY
      - DOMAIN-SUFFIX,echo.msk.ru,PROXY
      - DOMAIN-SUFFIX,the-village.ru,PROXY
      - DOMAIN-SUFFIX,snob.ru,PROXY
      - DOMAIN-SUFFIX,novayagazeta.ru,PROXY
      - DOMAIN-SUFFIX,moscowtimes.ru,PROXY
      - DOMAIN-KEYWORD,animego,PROXY
      - DOMAIN-KEYWORD,yummyanime,PROXY
      - DOMAIN-KEYWORD,yummy-anime,PROXY
      - DOMAIN-KEYWORD,animeportal,PROXY
      - DOMAIN-KEYWORD,anime-portal,PROXY
      - DOMAIN-KEYWORD,animedub,PROXY
      - DOMAIN-KEYWORD,anidub,PROXY
      - DOMAIN-KEYWORD,animelib,PROXY
      - DOMAIN-KEYWORD,ikianime,PROXY
      - DOMAIN-KEYWORD,anilibria,PROXY
      - PROCESS-NAME,Discord.exe,PROXY
      - PROCESS-NAME,discord,PROXY
      - RULE-SET,geosite-private,DIRECT,no-resolve
      - RULE-SET,geoip-private,DIRECT
      - RULE-SET,torrent-clients,DIRECT
      - RULE-SET,torrent-trackers,DIRECT
      - DOMAIN-SUFFIX,.ru,DIRECT
      - DOMAIN-SUFFIX,.su,DIRECT
      - DOMAIN-SUFFIX,.ru.com,DIRECT
      - DOMAIN-SUFFIX,.ru.net,DIRECT
      - DOMAIN-SUFFIX,wikipedia.org,DIRECT
      - DOMAIN-SUFFIX,kudago.com,DIRECT
      - DOMAIN-SUFFIX,kinescope.io,DIRECT
      - DOMAIN-SUFFIX,redheadsound.studio,DIRECT
      - DOMAIN-SUFFIX,plplayer.online,DIRECT
      - DOMAIN-SUFFIX,lomont.site,DIRECT
      - DOMAIN-SUFFIX,remanga.org,DIRECT
      - DOMAIN-SUFFIX,shopstory.live,DIRECT
      - DOMAIN-KEYWORD,miradres,DIRECT
      - DOMAIN-KEYWORD,premier,DIRECT
      - DOMAIN-KEYWORD,shutterstock,DIRECT
      - DOMAIN-KEYWORD,2gis,DIRECT
      - DOMAIN-KEYWORD,diginetica,DIRECT
      - DOMAIN-KEYWORD,kinescopecdn,DIRECT
      - DOMAIN-KEYWORD,researchgate,DIRECT
      - DOMAIN-KEYWORD,springer,DIRECT
      - DOMAIN-KEYWORD,nextcloud,DIRECT
      - DOMAIN-KEYWORD,wiki,DIRECT
      - DOMAIN-KEYWORD,kaspersky,DIRECT
      - DOMAIN-KEYWORD,stepik,DIRECT
      - DOMAIN-KEYWORD,likee,DIRECT
      - DOMAIN-KEYWORD,snapchat,DIRECT
      - DOMAIN-KEYWORD,yappy,DIRECT
      - DOMAIN-KEYWORD,pikabu,DIRECT
      - DOMAIN-KEYWORD,okko,DIRECT
      - DOMAIN-KEYWORD,wink,DIRECT
      - DOMAIN-KEYWORD,kion,DIRECT
      - DOMAIN-KEYWORD,roblox,DIRECT
      - DOMAIN-KEYWORD,ozon,DIRECT
      - DOMAIN-KEYWORD,wildberries,DIRECT
      - DOMAIN-KEYWORD,aliexpress,DIRECT
      - RULE-SET,geosite-ru,DIRECT
      - RULE-SET,xiaomi,DIRECT
      - RULE-SET,blender,DIRECT
      - RULE-SET,drweb,DIRECT
      - RULE-SET,debian,DIRECT
      - RULE-SET,canonical,DIRECT
      - RULE-SET,python,DIRECT
      - RULE-SET,geoip-ru,DIRECT
      - MATCH,PROXY
    "#;

/// The name of the second template.
pub const WITHOUT_RU: &'static str = "without_ru";

/// The text of the template with this name.
pub open spec fn template_text(template_name: Seq<char>) -> Seq<char> {
    if template_name == WITHOUT_RU@ {
        WITHOUT_RU_TEMPLATE@
    } else {
        DEFAULT_TEMPLATE@
    }
}

/// Picks the template with this name; any name but that of the second template
/// means the first.
pub fn choose_template(template_name: &str) -> (template: &'static str)
    ensures
        template@ == template_text(template_name@),
{
    if crate::text::same_text(template_name, WITHOUT_RU) {
        WITHOUT_RU_TEMPLATE
    } else {
        DEFAULT_TEMPLATE
    }
}

/// The name that stands for the proxy in a template.
pub const PLACEHOLDER: &'static str = "myproxy";

/// A list of proxies with `proxy` as its only item; what is no list stays.
pub open spec fn only_proxy(proxy: Yaml) -> spec_fn(Yaml) -> Yaml {
    |list: Yaml|
        match crate::yaml::untag(list) {
            Yaml::Sequence(_) => crate::yaml::retag(list, Yaml::Sequence(seq![proxy])),
            _ => list,
        }
}

/// The name of the proxy in place of the placeholder; any other member of a group
/// stays.
pub open spec fn renamed_member(proxy_name: Seq<char>) -> spec_fn(Yaml) -> Yaml {
    |member: Yaml|
        if crate::yaml::untag(member) == Yaml::Text(PLACEHOLDER@) {
            Yaml::Text(proxy_name)
        } else {
            member
        }
}

/// A group with the name of the proxy in place of the placeholder among its
/// members.
pub open spec fn renamed_group(proxy_name: Seq<char>) -> spec_fn(Yaml) -> Yaml {
    |group: Yaml|
        crate::yaml::change_member(
            group,
            "proxies"@,
            |members: Yaml| crate::yaml::change_items(members, renamed_member(proxy_name)),
        )
}

/// A template filled in: `proxy` is its only proxy, and the groups have
/// `proxy_name` in place of the placeholder.
pub open spec fn filled(template: Yaml, proxy: Yaml, proxy_name: Seq<char>) -> Yaml {
    crate::yaml::change_member(
        crate::yaml::change_member(template, "proxies"@, only_proxy(proxy)),
        "proxy-groups"@,
        |groups: Yaml| crate::yaml::change_items(groups, renamed_group(proxy_name)),
    )
}

/// Fills a template in.
pub fn fill_template(config: &mut serde_yaml::Value, proxy: serde_yaml::Value, proxy_name: &str)
    ensures
        crate::yaml::yaml_tree(*final(config)) == filled(
            crate::yaml::yaml_tree(*old(config)),
            crate::yaml::yaml_tree(proxy),
            proxy_name@,
        ),
{
    set_proxy(config, proxy);
    if let Some(groups) = member_mut(config, "proxy-groups") {
        rename_in_groups(groups, proxy_name);
    }
}

/// Makes `proxy` the only proxy of a document.
fn set_proxy(config: &mut serde_yaml::Value, proxy: serde_yaml::Value)
    ensures
        crate::yaml::yaml_tree(*final(config)) == crate::yaml::change_member(
            crate::yaml::yaml_tree(*old(config)),
            "proxies"@,
            only_proxy(crate::yaml::yaml_tree(proxy)),
        ),
{
    if let Some(proxies) = member_mut(config, "proxies") {
        if let Some(list) = items_mut(proxies) {
            list.clear();
            list.push(proxy);
            assert(crate::yaml::trees(list@) =~= seq![crate::yaml::yaml_tree(proxy)]);
        }
    }
}

/// Puts the name of the proxy in place of the placeholder in a list of groups.
fn rename_in_groups(groups: &mut serde_yaml::Value, proxy_name: &str)
    ensures
        crate::yaml::yaml_tree(*final(groups)) == crate::yaml::change_items(
            crate::yaml::yaml_tree(*old(groups)),
            renamed_group(proxy_name@),
        ),
{
    if let Some(list) = items_mut(groups) {
        rename_in_each(list, proxy_name);
    }
}

/// Puts the name of the proxy in place of the placeholder in each group.
fn rename_in_each(groups: &mut Vec<serde_yaml::Value>, proxy_name: &str)
    ensures
        crate::yaml::trees(final(groups)@) == crate::yaml::trees(old(groups)@).map_values(
            renamed_group(proxy_name@),
        ),
{
    let ghost before = groups@;
    let mut i: usize = 0;
    while i < groups.len()
        invariant
            i <= groups@.len(),
            groups@.len() == before.len(),
            forall|j: int|
                0 <= j < i ==> crate::yaml::yaml_tree(#[trigger] groups@[j]) == renamed_group(
                    proxy_name@,
                )(crate::yaml::yaml_tree(before[j])),
            forall|j: int| i <= j < groups@.len() ==> #[trigger] groups@[j] == before[j],
        decreases groups@.len() - i,
    {
        rename_in_group(&mut groups[i], proxy_name);
        i = i + 1;
    }
    assert(crate::yaml::trees(groups@) =~= crate::yaml::trees(before).map_values(
        renamed_group(proxy_name@),
    ));
}

/// Puts the name of the proxy in place of the placeholder in a group.
fn rename_in_group(group: &mut serde_yaml::Value, proxy_name: &str)
    ensures
        crate::yaml::yaml_tree(*final(group)) == renamed_group(proxy_name@)(
            crate::yaml::yaml_tree(*old(group)),
        ),
{
    if let Some(mapping) = mapping_mut(group) {
        if let Some(members) = entry_mut(mapping, "proxies") {
            if let Some(list) = items_mut(members) {
                let renamed: Vec<serde_yaml::Value> = rename_members(list, proxy_name);
                *list = renamed;
            }
        }
    }
    proof {
        crate::yaml::lemma_retag_untag(crate::yaml::yaml_tree(*old(group)));
    }
}

/// The members of a group with the name of the proxy in place of the placeholder.
fn rename_members(members: &Vec<serde_yaml::Value>, proxy_name: &str) -> (renamed: Vec<
    serde_yaml::Value,
>)
    ensures
        crate::yaml::trees(renamed@) == crate::yaml::trees(members@).map_values(
            renamed_member(proxy_name@),
        ),
{
    let mut renamed: Vec<serde_yaml::Value> = Vec::new();
    let mut i: usize = 0;
    while i < members.len()
        invariant
            i <= members@.len(),
            renamed@.len() == i,
            forall|j: int|
                0 <= j < i ==> crate::yaml::yaml_tree(#[trigger] renamed@[j]) == renamed_member(
                    proxy_name@,
                )(crate::yaml::yaml_tree(members@[j])),
        decreases members@.len() - i,
    {
        let placeholder: bool = match value_text(&members[i]) {
            Some(text) => crate::text::same_text(text, PLACEHOLDER),
            None => false,
        };
        if placeholder {
            renamed.push(text_value(proxy_name.to_string()));
        } else {
            renamed.push(copy_value(&members[i]));
        }
        i = i + 1;
    }
    assert(crate::yaml::trees(renamed@) =~= crate::yaml::trees(members@).map_values(
        renamed_member(proxy_name@),
    ));
    renamed
}

} // verus!
