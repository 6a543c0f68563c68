//! YAML documents: what a `serde_yaml::Value` holds, and the calls that read and
//! change one.

use vstd::prelude::*;

verus! {

/// Declares `serde_yaml::Value`, the type of a YAML document.
#[verifier::external_type_specification]
#[verifier::external_body]
pub struct ExternalValue(serde_yaml::Value);

/// Declares `serde_yaml::Mapping`, the type of a YAML mapping.
#[verifier::external_type_specification]
#[verifier::external_body]
pub struct ExternalMapping(serde_yaml::Mapping);

/// What a YAML document holds.
///
/// A mapping keeps its entries in the order in which they were put in, each key
/// once. A floating-point number is given by its bits.
pub enum Yaml {
    Null,
    Bool(bool),
    Integer(int),
    Float(u64),
    Text(Seq<char>),
    Sequence(Seq<Yaml>),
    Mapping(Seq<(Yaml, Yaml)>),
    Tagged(Seq<char>, Box<Yaml>),
}

/// What the document `value` holds.
pub uninterp spec fn yaml_tree(value: serde_yaml::Value) -> Yaml;

/// The entries of `mapping`, in its order.
pub uninterp spec fn mapping_entries(mapping: serde_yaml::Mapping) -> Seq<(Yaml, Yaml)>;

/// What `serde_yaml::from_str` reads from a text into a `Value`: the document, or
/// the message of the error.
pub uninterp spec fn yaml_parsed(text: Seq<char>) -> Result<Yaml, Seq<char>>;

/// What `serde_yaml::to_string` writes for a document: the text, or the message
/// of the error.
pub uninterp spec fn yaml_rendered(tree: Yaml) -> Result<Seq<char>, Seq<char>>;

/// What each of `values` holds.
pub open spec fn trees(values: Seq<serde_yaml::Value>) -> Seq<Yaml> {
    values.map_values(|value: serde_yaml::Value| yaml_tree(value))
}

/// The document below all tags.
pub open spec fn untag(tree: Yaml) -> Yaml
    decreases tree,
{
    match tree {
        Yaml::Tagged(_, inner) => untag(*inner),
        _ => tree,
    }
}

/// `tree` with `core` in place of what stands below all its tags.
pub open spec fn retag(tree: Yaml, core: Yaml) -> Yaml
    decreases tree,
{
    match tree {
        Yaml::Tagged(tag, inner) => Yaml::Tagged(tag, Box::new(retag(*inner, core))),
        _ => core,
    }
}

/// Whether no part of the document carries a tag.
pub open spec fn tag_free(tree: Yaml) -> bool
    decreases tree,
{
    match tree {
        Yaml::Tagged(_, _) => false,
        Yaml::Sequence(items) => forall|i: int|
            0 <= i < items.len() ==> tag_free(#[trigger] items[i]),
        Yaml::Mapping(pairs) => forall|i: int|
            0 <= i < pairs.len() ==> tag_free((#[trigger] pairs[i]).0) && tag_free(pairs[i].1),
        _ => true,
    }
}

/// Where the entry with the text `key` as its key stands among `pairs`.
pub open spec fn position(pairs: Seq<(Yaml, Yaml)>, key: Seq<char>) -> Option<int>
    decreases pairs.len(),
{
    if pairs.len() == 0 {
        None
    } else if pairs[0].0 == Yaml::Text(key) {
        Some(0)
    } else {
        match position(pairs.drop_first(), key) {
            Some(i) => Some(i + 1),
            None => None,
        }
    }
}

/// A position is that of an entry with the key sought.
pub proof fn lemma_position_in_range(pairs: Seq<(Yaml, Yaml)>, key: Seq<char>)
    ensures
        position(pairs, key) matches Some(i) ==> 0 <= i < pairs.len() && pairs[i].0 == Yaml::Text(
            key,
        ),
    decreases pairs.len(),
{
    if pairs.len() > 0 && pairs[0].0 != Yaml::Text(key) {
        lemma_position_in_range(pairs.drop_first(), key);
    }
}

/// Positions depend on the keys alone.
pub proof fn lemma_position_by_keys(
    left: Seq<(Yaml, Yaml)>,
    right: Seq<(Yaml, Yaml)>,
    key: Seq<char>,
)
    requires
        left.len() == right.len(),
        forall|i: int| 0 <= i < left.len() ==> (#[trigger] left[i]).0 == right[i].0,
    ensures
        position(left, key) == position(right, key),
    decreases left.len(),
{
    if left.len() > 0 {
        assert(left[0].0 == right[0].0);
        assert forall|i: int| 0 <= i < left.drop_first().len() implies (
        #[trigger] left.drop_first()[i]).0 == right.drop_first()[i].0 by {
            assert(left[i + 1].0 == right[i + 1].0);
        }
        lemma_position_by_keys(left.drop_first(), right.drop_first(), key);
    }
}

/// `pairs` with `tree` as the value of the entry at `at`.
pub open spec fn with_value_at(pairs: Seq<(Yaml, Yaml)>, at: int, tree: Yaml) -> Seq<(Yaml, Yaml)> {
    pairs.update(at, (pairs[at].0, tree))
}

/// The value that a mapping gives to a text key.
pub open spec fn member(tree: Yaml, key: Seq<char>) -> Option<Yaml> {
    match untag(tree) {
        Yaml::Mapping(pairs) => match position(pairs, key) {
            Some(at) => Some(pairs[at].1),
            None => None,
        },
        _ => None,
    }
}

/// `tree` with `change` applied to the value of a text key; a document that has
/// no such key is left as it is.
pub open spec fn change_member(tree: Yaml, key: Seq<char>, change: spec_fn(Yaml) -> Yaml) -> Yaml {
    match untag(tree) {
        Yaml::Mapping(pairs) => match position(pairs, key) {
            Some(at) => retag(
                tree,
                Yaml::Mapping(with_value_at(pairs, at, change(pairs[at].1))),
            ),
            None => tree,
        },
        _ => tree,
    }
}

/// `tree` with `change` applied to each item of a sequence; a document that is
/// no sequence is left as it is.
pub open spec fn change_items(tree: Yaml, change: spec_fn(Yaml) -> Yaml) -> Yaml {
    match untag(tree) {
        Yaml::Sequence(items) => retag(tree, Yaml::Sequence(items.map_values(change))),
        _ => tree,
    }
}

/// Putting a document back below its own tags gives the document again.
pub proof fn lemma_retag_untag(tree: Yaml)
    ensures
        retag(tree, untag(tree)) == tree,
    decreases tree,
{
    match tree {
        Yaml::Tagged(_, inner) => lemma_retag_untag(*inner),
        _ => {},
    }
}

/// Below the tags of a retagged document stands the core that was put there.
pub proof fn lemma_untag_retag(tree: Yaml, core: Yaml)
    requires
        !(core is Tagged),
    ensures
        untag(retag(tree, core)) == core,
    decreases tree,
{
    match tree {
        Yaml::Tagged(_, inner) => lemma_untag_retag(*inner, core),
        _ => {},
    }
}

/// Changing one member leaves the others as they are, and the changed one holds
/// what the change gives.
pub proof fn law_change_member_is_local(
    tree: Yaml,
    key: Seq<char>,
    other: Seq<char>,
    change: spec_fn(Yaml) -> Yaml,
)
    ensures
        other != key ==> member(change_member(tree, key, change), other) == member(tree, other),
        member(change_member(tree, key, change), key) == match member(tree, key) {
            Some(value) => Some(change(value)),
            None => None,
        },
{
    match untag(tree) {
        Yaml::Mapping(pairs) => {
            lemma_position_in_range(pairs, key);
            lemma_position_in_range(pairs, other);
            if let Some(at) = position(pairs, key) {
                let changed = with_value_at(pairs, at, change(pairs[at].1));
                lemma_untag_retag(tree, Yaml::Mapping(changed));
                lemma_position_by_keys(pairs, changed, key);
                lemma_position_by_keys(pairs, changed, other);
            }
        },
        _ => {},
    }
}

/// Wraps `serde_yaml::from_str` to a `Value`, and the message of its error: what
/// they give depends on the text alone.
#[verifier::external_body]
pub(crate) fn parse_yaml(text: &str) -> (parsed: Result<serde_yaml::Value, String>)
    ensures
        match parsed {
            Ok(value) => yaml_parsed(text@) == Ok::<Yaml, Seq<char>>(yaml_tree(value)),
            Err(message) => yaml_parsed(text@) == Err::<Yaml, Seq<char>>(message@),
        },
{
    serde_yaml::from_str::<serde_yaml::Value>(text).map_err(|error| error.to_string())
}

/// Wraps `serde_yaml::to_string` on a `Value`, and the message of its error: what
/// they give depends on what the document holds alone. That `from_str` reads the
/// document back from the text is not claimed: it limits how deep a document may
/// be nested, and `to_string` does not.
#[verifier::external_body]
pub(crate) fn render_yaml(value: &serde_yaml::Value) -> (rendered: Result<String, String>)
    ensures
        match rendered {
            Ok(text) => yaml_rendered(yaml_tree(*value)) == Ok::<Seq<char>, Seq<char>>(text@),
            Err(message) => yaml_rendered(yaml_tree(*value)) == Err::<Seq<char>, Seq<char>>(
                message@,
            ),
        },
{
    serde_yaml::to_string(value).map_err(|error| error.to_string())
}

/// Wraps `serde_yaml::Value::from` on a `String`: a document that is this text.
#[verifier::external_body]
pub(crate) fn text_value(text: String) -> (value: serde_yaml::Value)
    ensures
        yaml_tree(value) == Yaml::Text(text@),
{
    serde_yaml::Value::from(text)
}

/// Wraps `serde_yaml::Value::from` on a `u16`: a document that is this number.
#[verifier::external_body]
pub(crate) fn number_value(number: u16) -> (value: serde_yaml::Value)
    ensures
        yaml_tree(value) == Yaml::Integer(number as int),
{
    serde_yaml::Value::from(number)
}

/// Wraps `serde_yaml::Value::from` on a `bool`: a document that is this truth
/// value.
#[verifier::external_body]
pub(crate) fn bool_value(flag: bool) -> (value: serde_yaml::Value)
    ensures
        yaml_tree(value) == Yaml::Bool(flag),
{
    serde_yaml::Value::from(flag)
}

/// Wraps the `clone` of `serde_yaml::Value`: the copy holds the same.
#[verifier::external_body]
pub(crate) fn copy_value(value: &serde_yaml::Value) -> (copy: serde_yaml::Value)
    ensures
        yaml_tree(copy) == yaml_tree(*value),
{
    value.clone()
}

/// Wraps `serde_yaml::Value::as_str`: the text that the document is, below its
/// tags.
#[verifier::external_body]
pub(crate) fn value_text(value: &serde_yaml::Value) -> (text: Option<&str>)
    ensures
        match text {
            Some(text) => untag(yaml_tree(*value)) == Yaml::Text(text@),
            None => !(untag(yaml_tree(*value)) is Text),
        },
{
    value.as_str()
}

/// Wraps `serde_yaml::Value::as_sequence_mut`: the items of a document that is a
/// sequence below its tags, for change in place.
#[verifier::external_body]
pub(crate) fn items_mut(value: &mut serde_yaml::Value) -> (items: Option<
    &mut Vec<serde_yaml::Value>,
>)
    ensures
        match items {
            Some(list) => {
                &&& untag(yaml_tree(*old(value))) == Yaml::Sequence(trees(list@))
                &&& yaml_tree(*final(value)) == retag(
                    yaml_tree(*old(value)),
                    Yaml::Sequence(trees(final(list)@)),
                )
            },
            None => {
                &&& !(untag(yaml_tree(*old(value))) is Sequence)
                &&& *final(value) == *old(value)
            },
        },
{
    value.as_sequence_mut()
}

/// Wraps `serde_yaml::Value::as_mapping_mut`: the mapping that the document is
/// below its tags, for change in place.
#[verifier::external_body]
pub(crate) fn mapping_mut(value: &mut serde_yaml::Value) -> (mapping: Option<
    &mut serde_yaml::Mapping,
>)
    ensures
        match mapping {
            Some(map) => {
                &&& untag(yaml_tree(*old(value))) == Yaml::Mapping(mapping_entries(*map))
                &&& yaml_tree(*final(value)) == retag(
                    yaml_tree(*old(value)),
                    Yaml::Mapping(mapping_entries(*final(map))),
                )
            },
            None => {
                &&& !(untag(yaml_tree(*old(value))) is Mapping)
                &&& *final(value) == *old(value)
            },
        },
{
    value.as_mapping_mut()
}

/// Wraps `serde_yaml::Mapping::get_mut` with a text as the index: the value of
/// the entry with this key, for change in place. The other entries, the key and
/// the order stay.
#[verifier::external_body]
pub(crate) fn entry_mut<'a>(mapping: &'a mut serde_yaml::Mapping, key: &str) -> (entry: Option<
    &'a mut serde_yaml::Value,
>)
    ensures
        match entry {
            Some(value) => {
                &&& position(mapping_entries(*old(mapping)), key@) matches Some(at)
                &&& mapping_entries(*old(mapping))[at].1 == yaml_tree(*value)
                &&& mapping_entries(*final(mapping)) == with_value_at(
                    mapping_entries(*old(mapping)),
                    at,
                    yaml_tree(*final(value)),
                )
            },
            None => {
                &&& position(mapping_entries(*old(mapping)), key@) is None
                &&& *final(mapping) == *old(mapping)
            },
        },
{
    mapping.get_mut(key)
}

/// Wraps `serde_yaml::Value::get_mut` with a text as the index: the value that a
/// document that is a mapping below its tags gives to this key, for change in
/// place. The other entries, the key and the order stay.
#[verifier::external_body]
pub(crate) fn member_mut<'a>(value: &'a mut serde_yaml::Value, key: &str) -> (entry: Option<
    &'a mut serde_yaml::Value,
>)
    ensures
        match entry {
            Some(inner) => {
                &&& untag(yaml_tree(*old(value))) matches Yaml::Mapping(pairs)
                &&& position(pairs, key@) matches Some(at)
                &&& pairs[at].1 == yaml_tree(*inner)
                &&& yaml_tree(*final(value)) == retag(
                    yaml_tree(*old(value)),
                    Yaml::Mapping(with_value_at(pairs, at, yaml_tree(*final(inner)))),
                )
            },
            None => {
                &&& member(yaml_tree(*old(value)), key@) is None
                &&& *final(value) == *old(value)
            },
        },
{
    value.get_mut(key)
}

} // verus!
