# profile_commands

The verified core of the profile commands of a proxy client, written in Verus.

- `src/switch.rs`: switching the profile in use, as a course of questions to the
  outside and effects on it; `src/switch_laws.rs`: what holds of every course.
- `src/commands.rs`: what the shorter commands decide between the calls they make.
- `src/profiles.rs`: the profile list, as far as the commands read it.
- `src/share_link.rs`: making a profile from a share link;
  `src/share_link_laws.rs`: what holds of every such profile.
- `src/template.rs`: the documents that such a profile starts from.
- `src/link.rs`, `src/yaml.rs`, `src/fields.rs`, `src/text.rs`: links, YAML
  documents, fields of a mapping and text. The calls into `url`, `base64`,
  `percent-encoding`, `serde_json` and `serde_yaml` stand here, each with the
  contract that the proofs rest on.
- `src/notice.rs`: messages to the user.
- `app/`: the commands themselves, over a trait for the rest of the client.
- `tests/`: tests on concrete values.
