//! Fields of a YAML mapping: values by text keys, in the order of the keys.

use crate::text::{same_text, text_order, TextOrder};
use crate::yaml::Yaml;
use vstd::prelude::*;

verus! {

broadcast use vstd::seq_lib::group_seq_properties;

/// Whether the keys of `pairs` ascend, so that none occurs twice.
pub open spec fn ascending(pairs: Seq<(Seq<char>, Yaml)>) -> bool {
    forall|i: int, j: int|
        0 <= i < j < pairs.len() ==> crate::text::text_before(
            (#[trigger] pairs[i]).0,
            (#[trigger] pairs[j]).0,
        )
}

/// Whether `key` is the key of one of `pairs`.
pub open spec fn has_key(pairs: Seq<(Seq<char>, Yaml)>, key: Seq<char>) -> bool {
    exists|i: int| 0 <= i < pairs.len() && (#[trigger] pairs[i]).0 == key
}

/// The values of `pairs` by their keys.
pub open spec fn by_key(pairs: Seq<(Seq<char>, Yaml)>) -> Map<Seq<char>, Yaml> {
    Map::new(
        |key: Seq<char>| has_key(pairs, key),
        |key: Seq<char>|
            pairs[choose|i: int| 0 <= i < pairs.len() && (#[trigger] pairs[i]).0 == key].1,
    )
}

/// The fields of `map` in ascending order of their keys.
pub open spec fn in_order(map: Map<Seq<char>, Yaml>) -> Seq<(Seq<char>, Yaml)> {
    choose|pairs: Seq<(Seq<char>, Yaml)>| ascending(pairs) && #[trigger] by_key(pairs) == map
}

/// The YAML mapping with the entries `pairs`.
pub open spec fn keyed_by_text(pairs: Seq<(Seq<char>, Yaml)>) -> Yaml {
    Yaml::Mapping(pairs.map_values(|pair: (Seq<char>, Yaml)| (Yaml::Text(pair.0), pair.1)))
}

/// The YAML mapping with the fields of `map`, in ascending order of their keys.
pub open spec fn mapping_of(map: Map<Seq<char>, Yaml>) -> Yaml {
    keyed_by_text(in_order(map))
}

/// What `entries` hold.
pub open spec fn pairs_of(entries: Seq<(String, serde_yaml::Value)>) -> Seq<(Seq<char>, Yaml)> {
    entries.map_values(
        |entry: (String, serde_yaml::Value)| (entry.0@, crate::yaml::yaml_tree(entry.1)),
    )
}

/// Whether no value of `pairs` carries a tag.
pub open spec fn values_tag_free(pairs: Seq<(Seq<char>, Yaml)>) -> bool {
    forall|i: int| 0 <= i < pairs.len() ==> crate::yaml::tag_free((#[trigger] pairs[i]).1)
}

/// In ascending fields each key has the value that stands beside it.
pub proof fn lemma_by_key(pairs: Seq<(Seq<char>, Yaml)>, i: int)
    requires
        ascending(pairs),
        0 <= i < pairs.len(),
    ensures
        by_key(pairs).contains_key(pairs[i].0),
        by_key(pairs)[pairs[i].0] == pairs[i].1,
{
    let key = pairs[i].0;
    let j = choose|j: int| 0 <= j < pairs.len() && (#[trigger] pairs[j]).0 == key;
    assert(pairs[i].0 == key);
    crate::text::lemma_before_irreflexive(key);
    assert(i == j);
}

/// Ascending fields are determined by what they give to each key.
pub proof fn lemma_ascending_unique(
    left: Seq<(Seq<char>, Yaml)>,
    right: Seq<(Seq<char>, Yaml)>,
)
    requires
        ascending(left),
        ascending(right),
        by_key(left) == by_key(right),
    ensures
        left == right,
    decreases left.len(),
{
    if left.len() == 0 {
        if right.len() > 0 {
            lemma_by_key(right, 0);
            assert(by_key(left).contains_key(right[0].0));
        }
        assert(left =~= right);
    } else {
        let n = left.len() - 1;
        lemma_by_key(left, n);
        assert(has_key(right, left[n].0));
        let m = right.len() - 1;
        lemma_by_key(right, m);
        assert(has_key(left, right[m].0));
        let at = choose|i: int| 0 <= i < right.len() && (#[trigger] right[i]).0 == left[n].0;
        let back = choose|i: int| 0 <= i < left.len() && (#[trigger] left[i]).0 == right[m].0;
        if at != m {
            assert(crate::text::text_before(right[at].0, right[m].0));
            crate::text::lemma_before_irreflexive(left[n].0);
            if back == n {
                assert(false);
            } else {
                assert(crate::text::text_before(left[back].0, left[n].0));
                crate::text::lemma_before_transitive(left[n].0, right[m].0, left[n].0);
            }
        }
        assert(left[n] == right[m]);
        let left_init = left.drop_last();
        let right_init = right.drop_last();
        assert(ascending(left_init));
        assert(ascending(right_init));
        lemma_by_key_init(left);
        lemma_by_key_init(right);
        lemma_ascending_unique(left_init, right_init);
        assert(left =~= left_init.push(left[n]));
        assert(right =~= right_init.push(right[m]));
    }
}

/// Without the last of ascending fields, its key is gone and the rest is as before.
proof fn lemma_by_key_init(pairs: Seq<(Seq<char>, Yaml)>)
    requires
        ascending(pairs),
        pairs.len() > 0,
    ensures
        by_key(pairs.drop_last()) == by_key(pairs).remove(pairs.last().0),
{
    let init = pairs.drop_last();
    let last = pairs.len() - 1;
    assert(ascending(init));
    assert forall|key: Seq<char>| by_key(init).contains_key(key) == by_key(pairs).remove(
        pairs.last().0,
    ).contains_key(key) by {
        if has_key(init, key) {
            let i = choose|i: int| 0 <= i < init.len() && (#[trigger] init[i]).0 == key;
            assert(pairs[i].0 == key);
            crate::text::lemma_before_irreflexive(key);
            assert(crate::text::text_before(pairs[i].0, pairs[last].0));
        }
        if has_key(pairs, key) && key != pairs.last().0 {
            let i = choose|i: int| 0 <= i < pairs.len() && (#[trigger] pairs[i]).0 == key;
            assert(init[i].0 == key);
        }
    }
    assert forall|key: Seq<char>| by_key(init).contains_key(key) implies by_key(init)[key]
        == by_key(pairs)[key] by {
        let i = choose|i: int| 0 <= i < init.len() && (#[trigger] init[i]).0 == key;
        lemma_by_key(init, i);
        lemma_by_key(pairs, i);
    }
    assert(by_key(init) =~= by_key(pairs).remove(pairs.last().0));
}

/// Ascending fields are the fields of their own map in order.
pub proof fn lemma_in_order(pairs: Seq<(Seq<char>, Yaml)>)
    requires
        ascending(pairs),
    ensures
        in_order(by_key(pairs)) == pairs,
{
    lemma_ascending_unique(in_order(by_key(pairs)), pairs);
}

/// A mapping whose values carry no tags carries none itself.
proof fn lemma_keyed_tag_free(pairs: Seq<(Seq<char>, Yaml)>)
    requires
        values_tag_free(pairs),
    ensures
        crate::yaml::tag_free(keyed_by_text(pairs)),
{
    let entries = pairs.map_values(|pair: (Seq<char>, Yaml)| (Yaml::Text(pair.0), pair.1));
    assert forall|i: int| 0 <= i < entries.len() implies crate::yaml::tag_free(
        (#[trigger] entries[i]).0,
    ) && crate::yaml::tag_free(entries[i].1) by {
        assert(entries[i] == (Yaml::Text(pairs[i].0), pairs[i].1));
        assert(crate::yaml::tag_free(pairs[i].1));
    }
}

/// Wraps `serde_yaml::to_value` on a `BTreeMap` from text to documents without
/// tags: it succeeds, and gives the mapping with these entries in the order of
/// the map, which is that of the keys.
#[verifier::external_body]
fn mapping_value(entries: Vec<(String, serde_yaml::Value)>) -> (value: Result<
    serde_yaml::Value,
    String,
>)
    requires
        ascending(pairs_of(entries@)),
        values_tag_free(pairs_of(entries@)),
    ensures
        match value {
            Ok(mapping) => crate::yaml::yaml_tree(mapping) == keyed_by_text(pairs_of(entries@)),
            Err(_) => false,
        },
{
    let map: std::collections::BTreeMap<String, serde_yaml::Value> = entries.into_iter().collect();
    serde_yaml::to_value(map).map_err(|error| error.to_string())
}

/// YAML values by text keys, kept in ascending order of the keys. No value
/// carries a tag.
pub struct Fields {
    entries: Vec<(String, serde_yaml::Value)>,
}

impl View for Fields {
    type V = Map<Seq<char>, Yaml>;

    closed spec fn view(&self) -> Map<Seq<char>, Yaml> {
        by_key(pairs_of(self.entries@))
    }
}

impl Fields {
    /// The invariant of the type.
    pub closed spec fn well_formed(&self) -> bool {
        &&& ascending(pairs_of(self.entries@))
        &&& values_tag_free(pairs_of(self.entries@))
    }

    /// No fields.
    pub fn new() -> (fields: Fields)
        ensures
            fields.well_formed(),
            fields@ == Map::<Seq<char>, Yaml>::empty(),
    {
        let fields = Fields { entries: Vec::new() };
        assert(by_key(pairs_of(fields.entries@)) =~= Map::<Seq<char>, Yaml>::empty());
        fields
    }

    /// The fields that `entries` list.
    pub fn from_entries(entries: Vec<(String, serde_yaml::Value)>) -> (fields: Fields)
        requires
            ascending(pairs_of(entries@)),
            values_tag_free(pairs_of(entries@)),
        ensures
            fields.well_formed(),
            fields@ == by_key(pairs_of(entries@)),
    {
        Fields { entries }
    }

    /// Whether there are no fields.
    pub fn is_empty(&self) -> (empty: bool)
        requires
            self.well_formed(),
        ensures
            empty == (self@ == Map::<Seq<char>, Yaml>::empty()),
    {
        proof {
            if self.entries@.len() > 0 {
                lemma_by_key(pairs_of(self.entries@), 0);
            } else {
                assert(self@ =~= Map::<Seq<char>, Yaml>::empty());
            }
        }
        self.entries.len() == 0
    }

    /// The value of a key.
    pub fn get(&self, key: &str) -> (value: Option<&serde_yaml::Value>)
        requires
            self.well_formed(),
        ensures
            match value {
                Some(value) => {
                    &&& self@.contains_key(key@)
                    &&& self@[key@] == crate::yaml::yaml_tree(*value)
                    &&& crate::yaml::tag_free(crate::yaml::yaml_tree(*value))
                },
                None => !self@.contains_key(key@),
            },
    {
        let mut i: usize = 0;
        while i < self.entries.len()
            invariant
                i <= self.entries@.len(),
                self.well_formed(),
                forall|j: int| 0 <= j < i ==> (#[trigger] pairs_of(self.entries@)[j]).0 != key@,
            decreases self.entries@.len() - i,
        {
            if same_text(self.entries[i].0.as_str(), key) {
                proof {
                    lemma_by_key(pairs_of(self.entries@), i as int);
                }
                return Some(&self.entries[i].1);
            }
            i = i + 1;
        }
        None
    }

    /// Gives a key this value, in place of any that it had.
    pub fn insert(&mut self, key: &str, value: serde_yaml::Value)
        requires
            old(self).well_formed(),
            crate::yaml::tag_free(crate::yaml::yaml_tree(value)),
        ensures
            final(self).well_formed(),
            final(self)@ == old(self)@.insert(key@, crate::yaml::yaml_tree(value)),
    {
        let ghost before = pairs_of(self.entries@);
        let ghost tree = crate::yaml::yaml_tree(value);
        let mut i: usize = 0;
        let mut order: TextOrder = TextOrder::After;
        while i < self.entries.len() && order == TextOrder::After
            invariant
                self.entries@ == old(self).entries@,
                before == pairs_of(self.entries@),
                ascending(before),
                i <= before.len(),
                order == TextOrder::Same ==> i < before.len() && before[i as int].0 == key@,
                order == TextOrder::Before ==> i < before.len() && crate::text::text_before(
                    key@,
                    before[i as int].0,
                ),
                forall|j: int|
                    0 <= j < i ==> crate::text::text_before((#[trigger] before[j]).0, key@),
            decreases before.len() - i + (if order == TextOrder::After { 1int } else { 0int }),
        {
            order = text_order(key, self.entries[i].0.as_str());
            if order == TextOrder::After {
                i = i + 1;
            }
        }
        if order == TextOrder::Same {
            self.entries.set(i, (key.to_string(), value));
            proof {
                lemma_put_same(before, i as int, key@, tree);
                assert(pairs_of(self.entries@) =~= before.update(i as int, (key@, tree)));
            }
        } else {
            self.entries.insert(i, (key.to_string(), value));
            proof {
                lemma_put_new(before, i as int, key@, tree);
                assert(pairs_of(self.entries@) =~= before.insert(i as int, (key@, tree)));
            }
        }
    }

    /// The YAML mapping with these fields.
    pub fn into_value(self) -> (value: Result<serde_yaml::Value, String>)
        requires
            self.well_formed(),
        ensures
            match value {
                Ok(mapping) => {
                    &&& crate::yaml::yaml_tree(mapping) == mapping_of(self@)
                    &&& crate::yaml::tag_free(crate::yaml::yaml_tree(mapping))
                },
                Err(_) => false,
            },
    {
        proof {
            lemma_in_order(pairs_of(self.entries@));
            lemma_keyed_tag_free(pairs_of(self.entries@));
        }
        mapping_value(self.entries)
    }
}

/// Ascending fields stay ascending when the value of one key is replaced.
proof fn lemma_put_same(
    pairs: Seq<(Seq<char>, Yaml)>,
    at: int,
    key: Seq<char>,
    tree: Yaml,
)
    requires
        ascending(pairs),
        0 <= at < pairs.len(),
        pairs[at].0 == key,
    ensures
        ascending(pairs.update(at, (key, tree))),
        by_key(pairs.update(at, (key, tree))) == by_key(pairs).insert(key, tree),
{
    let after = pairs.update(at, (key, tree));
    assert(ascending(after)) by {
        assert forall|i: int, j: int| 0 <= i < j < after.len() implies crate::text::text_before(
            (#[trigger] after[i]).0,
            (#[trigger] after[j]).0,
        ) by {
            assert(crate::text::text_before(pairs[i].0, pairs[j].0));
        }
    }
    assert forall|k: Seq<char>| by_key(after).contains_key(k) == by_key(pairs).insert(
        key,
        tree,
    ).contains_key(k) by {
        if has_key(after, k) {
            let i = choose|i: int| 0 <= i < after.len() && (#[trigger] after[i]).0 == k;
            assert(pairs[i].0 == k);
        }
        if has_key(pairs, k) {
            let i = choose|i: int| 0 <= i < pairs.len() && (#[trigger] pairs[i]).0 == k;
            assert(after[i].0 == k);
        }
        assert(after[at].0 == key);
    }
    assert forall|k: Seq<char>| by_key(after).contains_key(k) implies by_key(after)[k] == by_key(
        pairs,
    ).insert(key, tree)[k] by {
        let i = choose|i: int| 0 <= i < after.len() && (#[trigger] after[i]).0 == k;
        lemma_by_key(after, i);
        lemma_by_key(after, at);
        lemma_by_key(pairs, i);
    }
    assert(by_key(after) =~= by_key(pairs).insert(key, tree));
}

/// Ascending fields stay ascending when a new key is put where it belongs.
proof fn lemma_put_new(
    pairs: Seq<(Seq<char>, Yaml)>,
    at: int,
    key: Seq<char>,
    tree: Yaml,
)
    requires
        ascending(pairs),
        0 <= at <= pairs.len(),
        forall|j: int| 0 <= j < at ==> crate::text::text_before((#[trigger] pairs[j]).0, key),
        at < pairs.len() ==> crate::text::text_before(key, pairs[at].0),
    ensures
        ascending(pairs.insert(at, (key, tree))),
        by_key(pairs.insert(at, (key, tree))) == by_key(pairs).insert(key, tree),
{
    let after = pairs.insert(at, (key, tree));
    assert forall|j: int| at <= j < pairs.len() implies crate::text::text_before(
        key,
        (#[trigger] pairs[j]).0,
    ) by {
        if j > at {
            assert(crate::text::text_before(pairs[at].0, pairs[j].0));
            crate::text::lemma_before_transitive(key, pairs[at].0, pairs[j].0);
        }
    }
    assert forall|i: int| 0 <= i < after.len() implies (#[trigger] after[i]) == (if i < at {
        pairs[i]
    } else if i == at {
        (key, tree)
    } else {
        pairs[i - 1]
    }) by {}
    assert(ascending(after)) by {
        assert forall|i: int, j: int| 0 <= i < j < after.len() implies crate::text::text_before(
            (#[trigger] after[i]).0,
            (#[trigger] after[j]).0,
        ) by {
            let left = if i < at {
                i
            } else {
                i - 1
            };
            let right = if j < at {
                j
            } else {
                j - 1
            };
            if i != at && j != at {
                assert(crate::text::text_before(pairs[left].0, pairs[right].0));
            } else if i == at {
                assert(crate::text::text_before(key, pairs[right].0));
            } else {
                assert(crate::text::text_before(pairs[left].0, key));
            }
        }
    }
    assert(after[at] == (key, tree));
    assert forall|k: Seq<char>| by_key(after).contains_key(k) == by_key(pairs).insert(
        key,
        tree,
    ).contains_key(k) by {
        if has_key(after, k) && k != key {
            let i = choose|i: int| 0 <= i < after.len() && (#[trigger] after[i]).0 == k;
            assert(pairs[if i < at {
                i
            } else {
                i - 1
            }].0 == k);
        }
        if has_key(pairs, k) {
            let i = choose|i: int| 0 <= i < pairs.len() && (#[trigger] pairs[i]).0 == k;
            assert(after[if i < at {
                i
            } else {
                i + 1
            }].0 == k);
        }
    }
    assert forall|k: Seq<char>| by_key(after).contains_key(k) implies by_key(after)[k] == by_key(
        pairs,
    ).insert(key, tree)[k] by {
        let i = choose|i: int| 0 <= i < after.len() && (#[trigger] after[i]).0 == k;
        lemma_by_key(after, i);
        if i < at {
            lemma_by_key(pairs, i);
            crate::text::lemma_before_irreflexive(key);
        } else if i > at {
            lemma_by_key(pairs, i - 1);
            assert(crate::text::text_before(key, pairs[i - 1].0));
            crate::text::lemma_before_irreflexive(key);
        }
    }
    assert(by_key(after) =~= by_key(pairs).insert(key, tree));
}

/// Where a key stands, or belongs, among ascending fields.
proof fn lemma_place(pairs: Seq<(Seq<char>, Yaml)>, key: Seq<char>) -> (at: int)
    requires
        ascending(pairs),
    ensures
        0 <= at <= pairs.len(),
        forall|j: int| 0 <= j < at ==> crate::text::text_before((#[trigger] pairs[j]).0, key),
        at < pairs.len() ==> pairs[at].0 == key || crate::text::text_before(key, pairs[at].0),
    decreases pairs.len(),
{
    if pairs.len() == 0 {
        0
    } else {
        let last = pairs.len() - 1;
        if crate::text::text_before(pairs[last].0, key) {
            assert forall|j: int| 0 <= j < pairs.len() implies crate::text::text_before(
                (#[trigger] pairs[j]).0,
                key,
            ) by {
                if j < last {
                    assert(crate::text::text_before(pairs[j].0, pairs[last].0));
                    crate::text::lemma_before_transitive(pairs[j].0, pairs[last].0, key);
                }
            }
            pairs.len() as int
        } else {
            let init = pairs.drop_last();
            assert(ascending(init)) by {
                assert forall|i: int, j: int|
                    0 <= i < j < init.len() implies crate::text::text_before(
                    (#[trigger] init[i]).0,
                    (#[trigger] init[j]).0,
                ) by {
                    assert(crate::text::text_before(pairs[i].0, pairs[j].0));
                }
            }
            let at = lemma_place(init, key);
            assert forall|j: int| 0 <= j < at implies crate::text::text_before(
                (#[trigger] pairs[j]).0,
                key,
            ) by {
                assert(crate::text::text_before(init[j].0, key));
            }
            if at == init.len() {
                if pairs[last].0 != key {
                    crate::text::lemma_before_total(pairs[last].0, key);
                }
            } else {
                assert(init[at] == pairs[at]);
            }
            at
        }
    }
}

/// The fields of a finite map can be listed in order: the list ascends, and gives
/// to each key the value that the map gives to it.
pub proof fn law_in_order_lists_the_map(map: Map<Seq<char>, Yaml>)
    requires
        map.dom().finite(),
    ensures
        ascending(in_order(map)),
        by_key(in_order(map)) == map,
    decreases map.dom().len(),
{
    if map.dom().len() == 0 {
        let pairs = Seq::<(Seq<char>, Yaml)>::empty();
        assert(by_key(pairs) =~= map);
        assert(ascending(pairs));
    } else {
        let key = map.dom().choose();
        let rest = map.remove(key);
        law_in_order_lists_the_map(rest);
        let pairs = in_order(rest);
        let at = lemma_place(pairs, key);
        if at < pairs.len() && pairs[at].0 == key {
            lemma_by_key(pairs, at);
        }
        lemma_put_new(pairs, at, key, map[key]);
        assert(rest.insert(key, map[key]) =~= map);
        assert(by_key(pairs.insert(at, (key, map[key]))) == map);
    }
}

/// The first entry with a key that occurs is where the key is found.
proof fn lemma_position(pairs: Seq<(Seq<char>, Yaml)>, key: Seq<char>)
    ensures
        match crate::yaml::position(
            pairs.map_values(|pair: (Seq<char>, Yaml)| (Yaml::Text(pair.0), pair.1)),
            key,
        ) {
            Some(at) => 0 <= at < pairs.len() && pairs[at].0 == key,
            None => !has_key(pairs, key),
        },
    decreases pairs.len(),
{
    let entries = pairs.map_values(|pair: (Seq<char>, Yaml)| (Yaml::Text(pair.0), pair.1));
    if pairs.len() > 0 && pairs[0].0 != key {
        let rest = pairs.drop_first();
        assert(entries.drop_first() =~= rest.map_values(
            |pair: (Seq<char>, Yaml)| (Yaml::Text(pair.0), pair.1),
        ));
        lemma_position(rest, key);
        if has_key(pairs, key) {
            let i = choose|i: int| 0 <= i < pairs.len() && (#[trigger] pairs[i]).0 == key;
            assert(rest[i - 1].0 == key);
        }
    }
}

/// The mapping with the fields of a map gives to each key what the map gives to it.
pub proof fn law_mapping_has_the_fields(map: Map<Seq<char>, Yaml>, key: Seq<char>)
    requires
        map.dom().finite(),
    ensures
        crate::yaml::member(mapping_of(map), key) == if map.contains_key(key) {
            Some(map[key])
        } else {
            None
        },
{
    law_in_order_lists_the_map(map);
    let pairs = in_order(map);
    lemma_position(pairs, key);
    if let Some(at) = crate::yaml::position(
        pairs.map_values(|pair: (Seq<char>, Yaml)| (Yaml::Text(pair.0), pair.1)),
        key,
    ) {
        lemma_by_key(pairs, at);
    }
}

} // verus!
