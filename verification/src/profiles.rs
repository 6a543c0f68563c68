//! The profile list, as far as the commands read it.

use crate::text::same_text;
use vstd::prelude::*;

verus! {

/// The options of a profile that decide when it is refreshed.
#[derive(Clone, Copy, Debug, PartialEq, Eq)]
pub struct PrfOption {
    /// Minutes between two automatic refreshes.
    pub update_interval: Option<u64>,
    /// Whether the profile is refreshed at every start.
    pub update_always: Option<bool>,
}

/// A profile.
#[derive(Debug, PartialEq, Eq)]
pub struct PrfItem {
    pub uid: Option<String>,
    pub url: Option<String>,
    pub file: Option<String>,
    pub option: Option<PrfOption>,
}

/// The profile list: the profile in use and all profiles, each an `I`.
#[derive(Debug, PartialEq, Eq)]
pub struct IProfiles<I = PrfItem> {
    pub current: Option<String>,
    pub items: Option<Vec<I>>,
}

/// The content of an optional text.
pub open spec fn text_of(text: Option<String>) -> Option<Seq<char>> {
    match text {
        Some(text) => Some(text@),
        None => None,
    }
}

/// The profiles of a list; a list without any is an empty one.
pub open spec fn items_of(profiles: IProfiles) -> Seq<PrfItem> {
    match profiles.items {
        Some(items) => items@,
        None => Seq::empty(),
    }
}

/// Whether a profile was fetched from `url`.
pub open spec fn comes_from(item: PrfItem, url: Seq<char>) -> bool {
    text_of(item.url) == Some(url)
}

/// The identifier of the first profile that was fetched from `url`.
pub open spec fn uid_by_url(items: Seq<PrfItem>, url: Seq<char>) -> Option<String>
    decreases items.len(),
{
    if items.len() == 0 {
        None
    } else if comes_from(items[0], url) {
        items[0].uid
    } else {
        uid_by_url(items.drop_first(), url)
    }
}

/// Whether a profile asks to be refreshed at every start.
pub open spec fn updates_at_start(item: PrfItem) -> bool {
    item.option matches Some(option) && option.update_always == Some(true)
}

/// The identifiers of the profiles that ask to be refreshed at every start, in
/// the order of the list.
pub open spec fn uids_updated_at_start(items: Seq<PrfItem>) -> Seq<String> {
    items.filter(|item: PrfItem| updates_at_start(item) && item.uid is Some).map_values(
        |item: PrfItem| item.uid->0,
    )
}

/// The refresh interval that a profile asks for.
pub open spec fn interval_of(item: PrfItem) -> Option<u64> {
    match item.option {
        Some(option) => option.update_interval,
        None => None,
    }
}

/// Copies an optional text.
pub fn copy_text(text: &Option<String>) -> (copy: Option<String>)
    ensures
        copy == *text,
{
    match text {
        Some(text) => Some(text.clone()),
        None => None,
    }
}

/// Finds the identifier of the first profile that was fetched from `url`; that
/// profile may lack one.
pub fn find_uid_by_url(profiles: &IProfiles, url: &str) -> (uid: Option<String>)
    ensures
        uid == uid_by_url(items_of(*profiles), url@),
{
    match &profiles.items {
        Some(items) => {
            let mut i: usize = 0;
            assert(items@.skip(0) =~= items@);
            while i < items.len()
                invariant
                    i <= items@.len(),
                    items@ == items_of(*profiles),
                    uid_by_url(items@, url@) == uid_by_url(items@.skip(i as int), url@),
                decreases items@.len() - i,
            {
                assert(items@.skip(i as int)[0] == items@[i as int]);
                assert(items@.skip(i as int).drop_first() =~= items@.skip(i + 1));
                if let Some(item_url) = &items[i].url {
                    if same_text(item_url.as_str(), url) {
                        return copy_text(&items[i].uid);
                    }
                }
                i = i + 1;
            }
            None
        },
        None => None,
    }
}

/// Collects the identifiers of the profiles to refresh at start.
pub fn profiles_to_update(profiles: &IProfiles) -> (uids: Vec<String>)
    ensures
        uids@ == uids_updated_at_start(items_of(*profiles)),
{
    let mut uids: Vec<String> = Vec::new();
    match &profiles.items {
        Some(items) => {
            let mut i: usize = 0;
            let ghost wanted = |item: PrfItem| updates_at_start(item) && item.uid is Some;
            let ghost uid = |item: PrfItem| item.uid->0;
            assert(items@.take(0) =~= Seq::<PrfItem>::empty());
            assert(uids@ =~= items@.take(0).filter(wanted).map_values(uid)) by {
                reveal(Seq::filter);
            }
            while i < items.len()
                invariant
                    i <= items@.len(),
                    wanted == (|item: PrfItem| updates_at_start(item) && item.uid is Some),
                    uid == (|item: PrfItem| item.uid->0),
                    uids@ == items@.take(i as int).filter(wanted).map_values(uid),
                decreases items@.len() - i,
            {
                let ghost before = uids@;
                let item = &items[i];
                let chosen: bool = match &item.option {
                    Some(option) => match option.update_always {
                        Some(always) => always,
                        None => false,
                    },
                    None => false,
                };
                if chosen {
                    if let Some(item_uid) = &item.uid {
                        uids.push(item_uid.clone());
                    }
                }
                proof {
                    let next = items@.take(i + 1);
                    assert(next.drop_last() =~= items@.take(i as int));
                    assert(next.last() == items@[i as int]);
                    reveal(Seq::filter);
                    if wanted(items@[i as int]) {
                        assert(next.filter(wanted) =~= items@.take(i as int).filter(wanted).push(
                            items@[i as int],
                        ));
                        assert(next.filter(wanted).map_values(uid) =~= before.push(
                            uid(items@[i as int]),
                        ));
                    } else {
                        assert(next.filter(wanted) =~= items@.take(i as int).filter(wanted));
                    }
                }
                i = i + 1;
            }
            assert(items@.take(items@.len() as int) =~= items@);
        },
        None => {
            assert(uids@ =~= uids_updated_at_start(Seq::<PrfItem>::empty())) by {
                reveal(Seq::filter);
            }
        },
    }
    uids
}

/// Whether a new version of a profile asks for another refresh interval than the
/// one it replaces; a profile that was not there asks for none.
pub fn update_interval_changed(previous: &Option<PrfItem>, replacement: &PrfItem) -> (changed: bool)
    ensures
        changed == match *previous {
            Some(item) => interval_of(item) != interval_of(*replacement),
            None => false,
        },
{
    match previous {
        Some(item) => {
            let old_interval: Option<u64> = interval(item);
            let new_interval: Option<u64> = interval(replacement);
            match (old_interval, new_interval) {
                (Some(left), Some(right)) => left != right,
                (None, None) => false,
                _ => true,
            }
        },
        None => false,
    }
}

/// Reads the refresh interval that a profile asks for.
fn interval(item: &PrfItem) -> (interval: Option<u64>)
    ensures
        interval == interval_of(*item),
{
    match &item.option {
        Some(option) => option.update_interval,
        None => None,
    }
}

/// An identifier found by address is that of a profile in the list which was
/// fetched from there, and none before it was.
pub proof fn law_uid_by_url_is_first(items: Seq<PrfItem>, url: Seq<char>)
    ensures
        match uid_by_url(items, url) {
            Some(uid) => exists|i: int|
                #![trigger items[i]]
                0 <= i < items.len() && comes_from(items[i], url) && items[i].uid == Some(uid) && (
                forall|j: int| 0 <= j < i ==> !comes_from(#[trigger] items[j], url)),
            None => forall|i: int|
                #![trigger items[i]]
                0 <= i < items.len() && comes_from(items[i], url) && (forall|j: int|
                    0 <= j < i ==> !comes_from(#[trigger] items[j], url)) ==> items[i].uid is None,
        },
    decreases items.len(),
{
    if items.len() > 0 && !comes_from(items[0], url) {
        let rest = items.drop_first();
        law_uid_by_url_is_first(rest, url);
        assert forall|i: int| 0 <= i < rest.len() implies #[trigger] rest[i] == items[i + 1] by {}
        match uid_by_url(items, url) {
            Some(uid) => {
                let k = choose|i: int|
                    #![trigger rest[i]]
                    0 <= i < rest.len() && comes_from(rest[i], url) && rest[i].uid == Some(uid) && (
                    forall|j: int| 0 <= j < i ==> !comes_from(#[trigger] rest[j], url));
                assert forall|j: int| 0 <= j < k + 1 implies !comes_from(
                    #[trigger] items[j],
                    url,
                ) by {
                    if j > 0 {
                        assert(rest[j - 1] == items[j]);
                    }
                }
                assert(items[k + 1].uid == Some(uid));
            },
            None => {
                assert forall|i: int|
                    #![trigger items[i]]
                    0 <= i < items.len() && comes_from(items[i], url) && (forall|j: int|
                        0 <= j < i ==> !comes_from(#[trigger] items[j], url)) implies items[i].uid is None by {
                    assert(rest[i - 1] == items[i]);
                    assert forall|j: int| 0 <= j < i - 1 implies !comes_from(
                        #[trigger] rest[j],
                        url,
                    ) by {
                        assert(rest[j] == items[j + 1]);
                    }
                }
            },
        }
    }
}

/// Exactly those profiles are refreshed at start which ask for it and have an
/// identifier: those with options in which `update_always` is set, whatever else
/// they hold.
pub proof fn law_refreshed_at_start_are_those_that_ask(items: Seq<PrfItem>, uid: String)
    ensures
        uids_updated_at_start(items).contains(uid) <==> exists|i: int|
            #![trigger items[i]]
            0 <= i < items.len() && items[i].uid == Some(uid) && items[i].option is Some
                && items[i].option->0.update_always == Some(true),
    decreases items.len(),
{
    reveal(Seq::filter);
    let uids = uids_updated_at_start(items);
    if items.len() > 0 {
        let init = items.drop_last();
        let last = items.last();
        law_refreshed_at_start_are_those_that_ask(init, uid);
        let earlier = uids_updated_at_start(init);
        if updates_at_start(last) && last.uid is Some {
            assert(uids =~= earlier.push(last.uid->0));
            assert(uids[earlier.len() as int] == last.uid->0);
        } else {
            assert(uids =~= earlier);
        }
        if earlier.contains(uid) {
            assert(uids[earlier.index_of(uid)] == uid);
            let i = choose|i: int|
                #![trigger init[i]]
                0 <= i < init.len() && updates_at_start(init[i]) && init[i].uid == Some(uid);
            assert(items[i] == init[i]);
        }
        if exists|i: int|
            #![trigger items[i]]
            0 <= i < items.len() && updates_at_start(items[i]) && items[i].uid == Some(uid) {
            let i = choose|i: int|
                #![trigger items[i]]
                0 <= i < items.len() && updates_at_start(items[i]) && items[i].uid == Some(uid);
            if i < init.len() {
                assert(init[i] == items[i]);
            }
        }
    }
}

/// A profile at the end of the list comes last among those that are refreshed at
/// start if it has an identifier and options in which `update_always` is set, and
/// changes nothing otherwise. Whatever else it holds does not count.
pub proof fn law_refresh_at_start_follows_the_list(items: Seq<PrfItem>, item: PrfItem)
    ensures
        uids_updated_at_start(Seq::empty()) == Seq::<String>::empty(),
        uids_updated_at_start(items.push(item)) == match (item.uid, item.option) {
            (Some(uid), Some(option)) => if option.update_always == Some(true) {
                uids_updated_at_start(items).push(uid)
            } else {
                uids_updated_at_start(items)
            },
            _ => uids_updated_at_start(items),
        },
{
    reveal(Seq::filter);
    assert(items.push(item).drop_last() =~= items);
    assert(uids_updated_at_start(Seq::empty()) =~= Seq::<String>::empty());
    if item.uid is Some && item.option is Some && item.option->0.update_always == Some(true) {
        assert(uids_updated_at_start(items.push(item)) =~= uids_updated_at_start(items).push(
            item.uid->0,
        ));
    } else {
        assert(uids_updated_at_start(items.push(item)) =~= uids_updated_at_start(items));
    }
}

/// All profiles of a list count, and a list without any has none.
pub proof fn law_all_profiles_of_a_list_count(profiles: IProfiles)
    ensures
        match profiles.items {
            Some(items) => items_of(profiles) == items@,
            None => items_of(profiles).len() == 0,
        },
{
}

/// The first profile whose address has the text sought decides: what is found is
/// its identifier, if it has one, whatever else the profiles hold.
pub proof fn law_first_profile_with_the_address_decides(
    items: Seq<PrfItem>,
    url: Seq<char>,
    at: int,
)
    requires
        0 <= at < items.len(),
        items[at].url is Some,
        items[at].url->0@ == url,
        forall|i: int|
            0 <= i < at ==> (#[trigger] items[i]).url is None || items[i].url->0@ != url,
    ensures
        uid_by_url(items, url) == items[at].uid,
    decreases items.len(),
{
    if at > 0 {
        assert(items[0].url is None || items[0].url->0@ != url);
        let rest = items.drop_first();
        assert(rest[at - 1] == items[at]);
        assert forall|i: int| 0 <= i < at - 1 implies (#[trigger] rest[i]).url is None
            || rest[i].url->0@ != url by {
            assert(rest[i] == items[i + 1]);
        }
        law_first_profile_with_the_address_decides(rest, url, at - 1);
    }
}

/// Where no profile has the address, nothing is found.
pub proof fn law_unknown_address_is_not_found(items: Seq<PrfItem>, url: Seq<char>)
    requires
        forall|i: int|
            0 <= i < items.len() ==> (#[trigger] items[i]).url is None || items[i].url->0@ != url,
    ensures
        uid_by_url(items, url) is None,
    decreases items.len(),
{
    if items.len() > 0 {
        assert(items[0].url is None || items[0].url->0@ != url);
        let rest = items.drop_first();
        assert forall|i: int| 0 <= i < rest.len() implies (#[trigger] rest[i]).url is None
            || rest[i].url->0@ != url by {
            assert(rest[i] == items[i + 1]);
        }
        law_unknown_address_is_not_found(rest, url);
    }
}

/// The content of an optional text is there exactly if the text is.
pub proof fn law_content_of_a_text(text: Option<String>)
    ensures
        text_of(text) is Some <==> text is Some,
        text is Some ==> text_of(text)->0 == text->0@,
{
}

} // verus!
