//! What holds of every outcome of the shorter commands.

use crate::commands::{
    CommandEffect, CommandStep, ImportAction, LoadOutcome, ProfilesSource, ProfilesStep, ViewError,
    ViewEvent, ViewStage,
};
use crate::profiles::{IProfiles, PrfItem};
use vstd::prelude::*;

verus! {

/// A list that is returned because none could be read names no profile in use and
/// lists no profiles.
pub proof fn law_blank_list_holds_nothing<I>(profiles: IProfiles<I>)
    ensures
        crate::commands::is_blank(profiles) <==> profiles.current is None && profiles.items is Some
            && profiles.items->0@.len() == 0,
{
}

/// A list that was read is the answer, from whatever source, just as it was read. How
/// an attempt failed makes no difference: the newest list is followed by the one in
/// force, this by one made anew, and that by a list without anything in it.
pub proof fn law_list_read_is_the_answer<I>(
    source: ProfilesSource,
    profiles: IProfiles<I>,
    error: String,
    step: ProfilesStep<I>,
)
    ensures
        crate::commands::is_step_after(source, LoadOutcome::Loaded(profiles), step) <==> step
            == ProfilesStep::Return(profiles),
        crate::commands::is_step_after(source, LoadOutcome::TaskFailed(error), step)
            <==> crate::commands::is_step_after(source, LoadOutcome::TimedOut, step),
        crate::commands::is_step_after(source, LoadOutcome::TimedOut, step) <==> match source {
            ProfilesSource::Latest => step == ProfilesStep::<I>::Try(ProfilesSource::Data),
            ProfilesSource::Data => step == ProfilesStep::<I>::Try(ProfilesSource::Fresh),
            ProfilesSource::Fresh => step is Return && step->Return_0.current is None
                && step->Return_0.items is Some && step->Return_0.items->0@.len() == 0,
        },
{
}

/// Every source of the profile list is tried before it is given up: two sources are
/// never followed by the same one, and none comes back.
pub proof fn law_each_source_is_tried_once(left: ProfilesSource, right: ProfilesSource)
    ensures
        left != right && crate::commands::next_source(left) is Some
            ==> crate::commands::next_source(left) != crate::commands::next_source(right),
        crate::commands::next_source(left) != Some(left),
        crate::commands::next_source(left) != Some(ProfilesSource::Latest),
        crate::commands::next_source(left) is None <==> left == ProfilesSource::Fresh,
        crate::commands::next_source(ProfilesSource::Latest) == Some(ProfilesSource::Data),
{
}

/// Enhancing the profiles is answered as it ended; the core configuration is
/// reloaded exactly if it succeeded, and nothing else is done.
pub proof fn law_enhancing_reloads_after_success(enhanced: Result<(), String>)
    ensures
        crate::commands::enhancement(enhanced).0 == enhanced,
        crate::commands::enhancement(enhanced).1.contains(CommandEffect::RefreshClash)
            <==> enhanced is Ok,
        forall|effect: CommandEffect| #[trigger]
            crate::commands::enhancement(enhanced).1.contains(effect) ==> effect is RefreshClash,
        crate::commands::enhancement(enhanced).1.len() <= 1,
{
    if enhanced is Ok {
        assert(crate::commands::enhancement(enhanced).1[0] == CommandEffect::RefreshClash);
    }
}

/// An address that some profile of the list has is imported by refreshing the first
/// such profile, if it has an identifier, whatever else the profiles hold.
pub proof fn law_import_refreshes_the_first_with_the_address(
    profiles: IProfiles,
    url: Seq<char>,
    at: int,
)
    requires
        profiles.items is Some,
        0 <= at < profiles.items->0@.len(),
        profiles.items->0@[at].url is Some,
        profiles.items->0@[at].url->0@ == url,
        forall|i: int|
            0 <= i < at ==> (#[trigger] profiles.items->0@[i]).url is None
                || profiles.items->0@[i].url->0@ != url,
    ensures
        profiles.items->0@[at].uid is Some ==> crate::commands::import_of(profiles, url)
            == ImportAction::Update(profiles.items->0@[at].uid->0),
        profiles.items->0@[at].uid is None ==> crate::commands::import_of(profiles, url)
            == ImportAction::Create,
{
    crate::profiles::law_first_profile_with_the_address_decides(profiles.items->0@, url, at);
}

/// An address that no profile of the list has is imported as a new profile.
pub proof fn law_import_creates_for_an_unknown_address(profiles: IProfiles, url: Seq<char>)
    requires
        profiles.items is Some ==> forall|i: int|
            0 <= i < profiles.items->0@.len() ==> (#[trigger] profiles.items->0@[i]).url is None
                || profiles.items->0@[i].url->0@ != url,
    ensures
        crate::commands::import_of(profiles, url) == ImportAction::Create,
{
    if let Some(items) = profiles.items {
        crate::profiles::law_unknown_address_is_not_found(items@, url);
    }
}

/// Which profile an address is imported to depends on the addresses and identifiers
/// of the profiles alone.
pub proof fn law_import_goes_by_address_and_identifier(
    left: IProfiles,
    right: IProfiles,
    url: Seq<char>,
)
    requires
        left.items is Some,
        right.items is Some,
        left.items->0@.len() == right.items->0@.len(),
        forall|i: int|
            #![trigger left.items->0@[i]]
            #![trigger right.items->0@[i]]
            0 <= i < left.items->0@.len() ==> {
                &&& left.items->0@[i].url == right.items->0@[i].url
                &&& left.items->0@[i].uid == right.items->0@[i].uid
            },
    ensures
        crate::commands::import_of(left, url) == crate::commands::import_of(right, url),
{
    lemma_search_goes_by_address_and_identifier(left.items->0@, right.items->0@, url);
}

/// What is found for an address depends on the addresses and identifiers alone.
proof fn lemma_search_goes_by_address_and_identifier(
    left: Seq<PrfItem>,
    right: Seq<PrfItem>,
    url: Seq<char>,
)
    requires
        left.len() == right.len(),
        forall|i: int|
            #![trigger left[i]]
            #![trigger right[i]]
            0 <= i < left.len() ==> left[i].url == right[i].url && left[i].uid == right[i].uid,
    ensures
        crate::profiles::uid_by_url(left, url) == crate::profiles::uid_by_url(right, url),
    decreases left.len(),
{
    if left.len() > 0 {
        assert(left[0].url == right[0].url && left[0].uid == right[0].uid);
        let left_rest = left.drop_first();
        let right_rest = right.drop_first();
        assert forall|i: int|
            #![trigger left_rest[i]]
            #![trigger right_rest[i]]
            0 <= i < left_rest.len() implies left_rest[i].url == right_rest[i].url
            && left_rest[i].uid == right_rest[i].uid by {
            assert(left_rest[i] == left[i + 1] && right_rest[i] == right[i + 1]);
        }
        lemma_search_goes_by_address_and_identifier(left_rest, right_rest, url);
    }
}

/// A deletion that failed is answered with its error and does nothing more. After
/// one that succeeded unused files are removed, and the core loads the list again
/// exactly if the deletion says so; if not, the request has succeeded.
pub proof fn law_deletion_is_followed_up(deleted: Result<bool, String>)
    ensures
        crate::commands::deletion(deleted).0 is UpdateCore <==> deleted == Ok::<bool, String>(true),
        deleted == Ok::<bool, String>(false) ==> crate::commands::deletion(deleted).0
            == CommandStep::Return(Ok(())),
        deleted is Err ==> crate::commands::deletion(deleted).0 == CommandStep::Return(
            Err(deleted->Err_0),
        ),
        deleted is Ok ==> crate::commands::deletion(deleted).1 == seq![CommandEffect::CleanUpFiles],
        deleted is Err ==> crate::commands::deletion(deleted).1.len() == 0,
{
}

/// A command that had the core load the list fails exactly if the core could not be
/// reached, with its error. What the core said of the list makes no difference, and
/// its configuration is reloaded exactly if it was reached.
pub proof fn law_core_verdict_does_not_count(
    verdict: (bool, String),
    other: (bool, String),
    error: String,
)
    ensures
        crate::commands::core_update(Ok(verdict)) == crate::commands::core_update(Ok(other)),
        crate::commands::core_update(Ok(verdict)).0 == Ok::<(), String>(()),
        crate::commands::core_update(Ok(verdict)).1 == seq![CommandEffect::RefreshClash],
        crate::commands::core_update(Err(error)).0 == Err::<(), String>(error),
        crate::commands::core_update(Err(error)).1.len() == 0,
{
}

/// One refresh at start that succeeded is enough for the core to load the list
/// again, wherever it stands among the others; one that failed changes nothing, and
/// with no refresh at all there is nothing to do.
pub proof fn law_one_refresh_is_enough(
    before: Seq<Result<(), String>>,
    result: Result<(), String>,
    after: Seq<Result<(), String>>,
)
    ensures
        crate::commands::start_up(Seq::empty()) == CommandStep::Return(Ok(())),
        result is Ok ==> crate::commands::start_up(before.push(result) + after)
            == CommandStep::UpdateCore,
        result is Err ==> crate::commands::start_up(before.push(result) + after)
            == crate::commands::start_up(before + after),
{
    let with = before.push(result) + after;
    let without = before + after;
    assert(with[before.len() as int] == result);
    if result is Err {
        if exists|i: int| 0 <= i < with.len() && #[trigger] with[i] is Ok {
            let i = choose|i: int| 0 <= i < with.len() && #[trigger] with[i] is Ok;
            assert(without[if i < before.len() {
                i
            } else {
                i - 1
            }] is Ok);
        }
        if exists|i: int| 0 <= i < without.len() && #[trigger] without[i] is Ok {
            let i = choose|i: int| 0 <= i < without.len() && #[trigger] without[i] is Ok;
            assert(with[if i < before.len() {
                i
            } else {
                i + 1
            }] is Ok);
        }
    }
}

/// Whether the interval in the options of a profile is this one; a profile without
/// options has none.
pub open spec fn asks_for_interval(item: PrfItem, interval: Option<u64>) -> bool {
    ||| item.option is Some && item.option->0.update_interval == interval
    ||| item.option is None && interval is None
}

/// Replacing a profile is answered as it ended. The timer is refreshed, for this
/// profile, exactly if the replacement succeeded and the interval in the options
/// changed; a profile that was not there before does not count as changed.
pub proof fn law_timer_follows_the_interval(
    index: String,
    previous: PrfItem,
    replacement: PrfItem,
    earlier: Option<u64>,
    later: Option<u64>,
    patched: Result<(), String>,
)
    requires
        asks_for_interval(previous, earlier),
        asks_for_interval(replacement, later),
    ensures
        ({
            let (answer, effects) = crate::commands::replacement_of(
                index,
                Some(previous),
                replacement,
                patched,
            );
            &&& answer == patched
            &&& patched is Ok && earlier != later ==> effects
                == seq![CommandEffect::RefreshTimer(index)]
            &&& patched is Err || earlier == later ==> effects.len() == 0
        }),
        crate::commands::replacement_of(index, None, replacement, patched).0 == patched,
        crate::commands::replacement_of(index, None, replacement, patched).1.len() == 0,
{
}

/// The front end hears that the timer of a profile was updated exactly if it was.
pub proof fn law_timer_update_is_told(index: String, error: String)
    ensures
        crate::commands::timer_refresh(index, Ok(())) == seq![
            CommandEffect::NotifyTimerUpdated(index),
        ],
        crate::commands::timer_refresh(index, Err(error)).len() == 0,
{
}

/// A profile that was found is shown by its file: the path asked for next is that
/// of exactly this file, whatever else the profile holds, and one without a file
/// cannot be shown.
pub proof fn law_file_of_the_profile_is_shown(item: PrfItem, file: String)
    ensures
        item.file == Some(file) ==> crate::commands::view_step(
            ViewStage::FindingItem,
            ViewEvent::Item(Ok(item)),
        ) == ViewStage::ResolvingPath(file),
        item.file is None ==> crate::commands::view_step(
            ViewStage::FindingItem,
            ViewEvent::Item(Ok(item)),
        ) == ViewStage::Finished(Err(ViewError::NoFile)),
{
}

/// Showing a profile ends with the first thing that fails, and with its error: the
/// profile is not found, has no file, the directory is not known, the file is not
/// there or cannot be opened. Where none of these happens it succeeds.
pub proof fn law_first_failure_ends_showing(
    found: Result<PrfItem, String>,
    resolved: Result<String, String>,
    exists: bool,
    opened: Result<(), String>,
)
    ensures
        ({
            let first = crate::commands::view_step(ViewStage::FindingItem, ViewEvent::Item(found));
            let second = crate::commands::view_step(first, ViewEvent::Path(resolved));
            let third = crate::commands::view_step(second, ViewEvent::FileExists(exists));
            let last = crate::commands::view_step(third, ViewEvent::Opened(opened));
            if found is Err {
                last == ViewStage::Finished(Err(ViewError::Lookup(found->Err_0)))
            } else if found->Ok_0.file is None {
                last == ViewStage::Finished(Err(ViewError::NoFile))
            } else if resolved is Err {
                last == ViewStage::Finished(Err(ViewError::Directory(resolved->Err_0)))
            } else if !exists {
                last == ViewStage::Finished(Err(ViewError::FileNotFound))
            } else if opened is Err {
                last == ViewStage::Finished(Err(ViewError::Open(opened->Err_0)))
            } else {
                last is Finished && last->Finished_0 is Ok
            }
        }),
{
}

/// The path that is checked and opened is the one that was found.
pub proof fn law_path_found_is_opened(file: String, path: String)
    ensures
        crate::commands::view_step(
            ViewStage::ResolvingPath(file),
            ViewEvent::Path(Ok(path)),
        ) == ViewStage::CheckingFile(path),
        crate::commands::view_step(
            ViewStage::CheckingFile(path),
            ViewEvent::FileExists(true),
        ) == ViewStage::Opening(path),
{
}

/// An end stays an end, whatever answer comes after it.
pub proof fn law_shown_stays_shown(result: Result<(), ViewError>, event: ViewEvent)
    ensures
        crate::commands::view_step(ViewStage::Finished(result), event) == ViewStage::Finished(
            result,
        ),
{
}

/// The message of an error that came from outside is that error, word for word.
pub proof fn law_outside_errors_are_passed_on(message: String)
    ensures
        crate::commands::view_error_message(ViewError::Lookup(message)) == message@,
        crate::commands::view_error_message(ViewError::Directory(message)) == message@,
        crate::commands::view_error_message(ViewError::Open(message)) == message@,
{
}

} // verus!
