//! Text: equality with a literal, the order of keys, and splitting.

use vstd::prelude::*;

verus! {

/// How one text stands to another in the order of their characters.
#[derive(Clone, Copy, Debug, PartialEq, Eq, Structural)]
pub enum TextOrder {
    Before,
    Same,
    After,
}

/// Whether `left` comes before `right` in lexicographic order of characters.
pub open spec fn text_before(left: Seq<char>, right: Seq<char>) -> bool
    decreases left.len(),
{
    if right.len() == 0 {
        false
    } else if left.len() == 0 {
        true
    } else if left[0] == right[0] {
        text_before(left.drop_first(), right.drop_first())
    } else {
        (left[0] as int) < (right[0] as int)
    }
}

/// No text comes before itself.
pub proof fn lemma_before_irreflexive(text: Seq<char>)
    ensures
        !text_before(text, text),
    decreases text.len(),
{
    if text.len() > 0 {
        lemma_before_irreflexive(text.drop_first());
    }
}

/// The order of texts is transitive.
pub proof fn lemma_before_transitive(a: Seq<char>, b: Seq<char>, c: Seq<char>)
    requires
        text_before(a, b),
        text_before(b, c),
    ensures
        text_before(a, c),
    decreases a.len(),
{
    if a.len() > 0 && a[0] == b[0] && b[0] == c[0] {
        lemma_before_transitive(a.drop_first(), b.drop_first(), c.drop_first());
    }
}

/// Of two different texts one comes before the other.
pub proof fn lemma_before_total(a: Seq<char>, b: Seq<char>)
    requires
        a != b,
    ensures
        text_before(a, b) || text_before(b, a),
    decreases a.len(),
{
    if a.len() > 0 && b.len() > 0 && a[0] == b[0] {
        if a.drop_first() == b.drop_first() {
            assert(a =~= seq![a[0]] + a.drop_first());
            assert(b =~= seq![b[0]] + b.drop_first());
        }
        lemma_before_total(a.drop_first(), b.drop_first());
    } else if a.len() == 0 && b.len() == 0 {
        assert(a =~= b);
    }
}

/// Of two texts that agree up to some place, one that ends there comes before a
/// longer one, and otherwise the characters at that place decide.
pub proof fn law_first_difference_decides(left: Seq<char>, right: Seq<char>, at: int)
    requires
        0 <= at <= left.len(),
        at <= right.len(),
        forall|i: int| 0 <= i < at ==> left[i] == right[i],
    ensures
        at == left.len() && at < right.len() ==> text_before(left, right),
        at == right.len() ==> !text_before(left, right),
        at < left.len() && at < right.len() && left[at] != right[at] ==> (text_before(left, right)
            <==> (left[at] as int) < (right[at] as int)),
    decreases at,
{
    if at > 0 {
        let left_rest = left.drop_first();
        let right_rest = right.drop_first();
        assert(left[0] == right[0]);
        assert forall|i: int| 0 <= i < at - 1 implies left_rest[i] == right_rest[i] by {
            assert(left[i + 1] == right[i + 1]);
        }
        law_first_difference_decides(left_rest, right_rest, at - 1);
    }
}

/// Whether two texts are the same.
pub fn same_text(left: &str, right: &str) -> (same: bool)
    ensures
        same == (left@ == right@),
{
    left.to_string() == right.to_string()
}

/// Compares two texts in lexicographic order of characters.
pub fn text_order(left: &str, right: &str) -> (order: TextOrder)
    ensures
        order == TextOrder::Same <==> left@ == right@,
        order == TextOrder::Before <==> text_before(left@, right@),
        order == TextOrder::After <==> text_before(right@, left@),
{
    if same_text(left, right) {
        proof {
            lemma_before_irreflexive(left@);
        }
        return TextOrder::Same;
    }
    let left_len: usize = left.unicode_len();
    let right_len: usize = right.unicode_len();
    let mut i: usize = 0;
    assert(left@.skip(0) =~= left@);
    assert(right@.skip(0) =~= right@);
    while i < left_len && i < right_len && left.get_char(i) == right.get_char(i)
        invariant
            left_len == left@.len(),
            right_len == right@.len(),
            i <= left_len,
            i <= right_len,
            left@.take(i as int) == right@.take(i as int),
            text_before(left@, right@) == text_before(left@.skip(i as int), right@.skip(i as int)),
            text_before(right@, left@) == text_before(right@.skip(i as int), left@.skip(i as int)),
        decreases left_len - i,
    {
        assert(left@.take(i + 1) =~= left@.take(i as int).push(left@[i as int]));
        assert(right@.take(i + 1) =~= right@.take(i as int).push(right@[i as int]));
        assert(left@.skip(i as int).drop_first() =~= left@.skip(i + 1));
        assert(right@.skip(i as int).drop_first() =~= right@.skip(i + 1));
        i = i + 1;
    }
    if i < left_len && i < right_len {
        if (left.get_char(i) as u32) < (right.get_char(i) as u32) {
            TextOrder::Before
        } else {
            TextOrder::After
        }
    } else if i < right_len {
        TextOrder::Before
    } else {
        proof {
            if i == right_len && i == left_len {
                assert(left@.take(i as int) =~= left@);
                assert(right@.take(i as int) =~= right@);
            }
        }
        TextOrder::After
    }
}

/// Wraps `str::split_once` with a character as the pattern: the text before the
/// first occurrence of the delimiter and the text after it, or nothing where the
/// delimiter does not occur.
#[verifier::external_body]
pub(crate) fn split_first<'a>(text: &'a str, delimiter: char) -> (parts: Option<(&'a str, &'a str)>)
    ensures
        match parts {
            Some((head, tail)) => {
                &&& !head@.contains(delimiter)
                &&& text@ == head@.push(delimiter) + tail@
            },
            None => !text@.contains(delimiter),
        },
{
    text.split_once(delimiter)
}

/// Wraps `String::from_utf8`: the text whose encoding the bytes are, or nothing
/// where the bytes are not well-formed UTF-8.
#[verifier::external_body]
pub(crate) fn text_from_utf8(bytes: Vec<u8>) -> (text: Option<String>)
    ensures
        match text {
            Some(text) => {
                &&& vstd::utf8::valid_utf8(bytes@)
                &&& text@ == vstd::utf8::decode_utf8(bytes@)
            },
            None => !vstd::utf8::valid_utf8(bytes@),
        },
{
    String::from_utf8(bytes).ok()
}

} // verus!
