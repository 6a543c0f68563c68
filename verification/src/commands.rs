//! What the shorter commands decide between the calls that they make.

use crate::profiles::{find_uid_by_url, update_interval_changed, IProfiles, PrfItem};
use vstd::prelude::*;

verus! {

/// How long reading the newest profile list may take.
pub const LATEST_TIMEOUT_MS: u64 = 500;

/// How long reading the profile list in force may take.
pub const DATA_TIMEOUT_MS: u64 = 2000;

/// Where a profile list is read from.
#[derive(Clone, Copy, Debug, PartialEq, Eq, Structural)]
pub enum ProfilesSource {
    /// The newest list, drafts included.
    Latest,
    /// The list in force.
    Data,
    /// A list made anew from the file on disk.
    Fresh,
}

/// The end of an attempt to read a profile list.
#[derive(Debug, PartialEq, Eq)]
pub enum LoadOutcome<I = PrfItem> {
    Loaded(IProfiles<I>),
    TaskFailed(String),
    TimedOut,
}

/// What is done after an attempt to read a profile list.
#[derive(Debug, PartialEq, Eq)]
pub enum ProfilesStep<I = PrfItem> {
    /// Try this source next.
    Try(ProfilesSource),
    /// Answer the request with this list.
    Return(IProfiles<I>),
}

/// How long reading from a source may take, in milliseconds; without end where
/// there is no limit.
pub open spec fn source_timeout(source: ProfilesSource) -> Option<u64> {
    match source {
        ProfilesSource::Latest => Some(LATEST_TIMEOUT_MS),
        ProfilesSource::Data => Some(DATA_TIMEOUT_MS),
        ProfilesSource::Fresh => None,
    }
}

/// The source that is tried after another has failed.
pub open spec fn next_source(source: ProfilesSource) -> Option<ProfilesSource> {
    match source {
        ProfilesSource::Latest => Some(ProfilesSource::Data),
        ProfilesSource::Data => Some(ProfilesSource::Fresh),
        ProfilesSource::Fresh => None,
    }
}

/// Whether a profile list names no profile in use and lists no profiles.
pub open spec fn is_blank<I>(profiles: IProfiles<I>) -> bool {
    &&& profiles.current is None
    &&& profiles.items matches Some(items) && items@.len() == 0
}

impl ProfilesSource {
    /// How long reading from the source may take, in milliseconds.
    pub fn timeout_ms(&self) -> (timeout: Option<u64>)
        ensures
            timeout == source_timeout(*self),
    {
        match self {
            ProfilesSource::Latest => Some(LATEST_TIMEOUT_MS),
            ProfilesSource::Data => Some(DATA_TIMEOUT_MS),
            ProfilesSource::Fresh => None,
        }
    }
}

/// Whether `step` is what follows an attempt to read the profile list from `source`.
pub open spec fn is_step_after<I>(
    source: ProfilesSource,
    outcome: LoadOutcome<I>,
    step: ProfilesStep<I>,
) -> bool {
    match outcome {
        LoadOutcome::Loaded(profiles) => step == ProfilesStep::Return(profiles),
        _ => match next_source(source) {
            Some(next) => step == ProfilesStep::<I>::Try(next),
            None => match step {
                ProfilesStep::Return(profiles) => is_blank(profiles),
                ProfilesStep::Try(_) => false,
            },
        },
    }
}

/// Takes the end of an attempt to read the profile list from `source`, the newest
/// list being tried first: a list that was read is the answer, and where the last
/// source has failed too, a blank one is.
pub fn get_profiles<I>(source: ProfilesSource, outcome: LoadOutcome<I>) -> (step: ProfilesStep<I>)
    ensures
        is_step_after(source, outcome, step),
        match outcome {
            LoadOutcome::Loaded(profiles) => step == ProfilesStep::Return(profiles),
            _ => match next_source(source) {
                Some(next) => step == ProfilesStep::<I>::Try(next),
                None => match step {
                    ProfilesStep::Return(profiles) => is_blank(profiles),
                    ProfilesStep::Try(_) => false,
                },
            },
        },
{
    match outcome {
        LoadOutcome::Loaded(profiles) => ProfilesStep::Return(profiles),
        _ => match source {
            ProfilesSource::Latest => ProfilesStep::Try(ProfilesSource::Data),
            ProfilesSource::Data => ProfilesStep::Try(ProfilesSource::Fresh),
            ProfilesSource::Fresh => {
                ProfilesStep::Return(IProfiles { current: None, items: Some(Vec::new()) })
            },
        },
    }
}

/// The list that answers a request which tries `source` first, the attempts ending
/// as `outcomes` say; nothing where every source fails.
pub open spec fn profiles_read<I>(
    source: ProfilesSource,
    outcomes: Map<ProfilesSource, LoadOutcome<I>>,
) -> Option<IProfiles<I>>
    decreases
            match source {
                ProfilesSource::Latest => 2int,
                ProfilesSource::Data => 1int,
                ProfilesSource::Fresh => 0int,
            },
{
    match outcomes[source] {
        LoadOutcome::Loaded(profiles) => Some(profiles),
        _ => match next_source(source) {
            Some(next) => profiles_read(next, outcomes),
            None => None,
        },
    }
}

/// The newest list that can be read is the answer: a list in force only where the
/// newest cannot be read, and one made anew only where neither can.
pub proof fn law_newest_readable_list_is_returned<I>(
    outcomes: Map<ProfilesSource, LoadOutcome<I>>,
)
    ensures
        profiles_read(ProfilesSource::Latest, outcomes) == match (
            outcomes[ProfilesSource::Latest],
            outcomes[ProfilesSource::Data],
            outcomes[ProfilesSource::Fresh],
        ) {
            (LoadOutcome::Loaded(profiles), _, _) => Some(profiles),
            (_, LoadOutcome::Loaded(profiles), _) => Some(profiles),
            (_, _, LoadOutcome::Loaded(profiles)) => Some(profiles),
            _ => None,
        },
{
    reveal_with_fuel(profiles_read, 3);
}

/// Something to be done outside on behalf of a command.
#[derive(Debug, PartialEq, Eq)]
pub enum CommandEffect {
    /// Remove files that no profile uses any more.
    CleanUpFiles,
    /// Tell the front end to reload the core configuration.
    RefreshClash,
    /// Start to refresh the timer, for the profile with this identifier.
    RefreshTimer(String),
    /// Tell the front end that the timer of this profile was updated.
    NotifyTimerUpdated(String),
}

/// What a command does next.
#[derive(Debug, PartialEq, Eq)]
pub enum CommandStep {
    /// Load the profile list into the core.
    UpdateCore,
    /// Answer the request with this.
    Return(Result<(), String>),
}

/// The answer to a request to enhance the profiles, and what is done then.
pub open spec fn enhancement(enhanced: Result<(), String>) -> (
    Result<(), String>,
    Seq<CommandEffect>,
) {
    (
        enhanced,
        if enhanced is Ok {
            seq![CommandEffect::RefreshClash]
        } else {
            seq![]
        },
    )
}

/// Takes the end of enhancing the profiles: the core configuration is reloaded
/// only if that succeeded.
pub fn enhance_profiles(enhanced: Result<(), String>) -> (next: (
    Result<(), String>,
    Vec<CommandEffect>,
))
    ensures
        next.0 == enhancement(enhanced).0,
        next.1@ == enhancement(enhanced).1,
        next.0 == enhanced,
        next.1@ == if enhanced is Ok {
            seq![CommandEffect::RefreshClash]
        } else {
            seq![]
        },
{
    match enhanced {
        Ok(done) => (Ok(done), vec![CommandEffect::RefreshClash]),
        Err(message) => (Err(message), Vec::new()),
    }
}

/// What is done to import a profile.
#[derive(Debug, PartialEq, Eq)]
pub enum ImportAction {
    /// Refresh the profile with this identifier.
    Update(String),
    /// Fetch a new profile and append it.
    Create,
}

/// How the profile at an address is imported.
pub open spec fn import_of(profiles: IProfiles, url: Seq<char>) -> ImportAction {
    match crate::profiles::uid_by_url(crate::profiles::items_of(profiles), url) {
        Some(uid) => ImportAction::Update(uid),
        None => ImportAction::Create,
    }
}

/// Decides how the profile at an address is imported: one that was fetched from
/// there before is refreshed, unless it has no identifier.
pub fn import_profile(profiles: &IProfiles, url: &str) -> (action: ImportAction)
    ensures
        action == import_of(*profiles, url@),
        action == match crate::profiles::uid_by_url(crate::profiles::items_of(*profiles), url@) {
            Some(uid) => ImportAction::Update(uid),
            None => ImportAction::Create,
        },
{
    match find_uid_by_url(profiles, url) {
        Some(uid) => ImportAction::Update(uid),
        None => ImportAction::Create,
    }
}

/// What follows the deletion of a profile, and what is done then.
pub open spec fn deletion(deleted: Result<bool, String>) -> (CommandStep, Seq<CommandEffect>) {
    match deleted {
        Ok(update) => (
            if update {
                CommandStep::UpdateCore
            } else {
                CommandStep::Return(Ok(()))
            },
            seq![CommandEffect::CleanUpFiles],
        ),
        Err(message) => (CommandStep::Return(Err(message)), seq![]),
    }
}

/// Takes the end of deleting a profile, which says whether the core has to load
/// the list again: unused files are removed once a profile is gone.
pub fn delete_profile(deleted: Result<bool, String>) -> (next: (CommandStep, Vec<CommandEffect>))
    ensures
        next.0 == deletion(deleted).0,
        next.1@ == deletion(deleted).1,
        next.0 == match deleted {
            Ok(update) => if update {
                CommandStep::UpdateCore
            } else {
                CommandStep::Return(Ok(()))
            },
            Err(message) => CommandStep::Return(Err(message)),
        },
        next.1@ == if deleted is Ok {
            seq![CommandEffect::CleanUpFiles]
        } else {
            seq![]
        },
{
    match deleted {
        Ok(update) => {
            let step: CommandStep = if update {
                CommandStep::UpdateCore
            } else {
                CommandStep::Return(Ok(()))
            };
            (step, vec![CommandEffect::CleanUpFiles])
        },
        Err(message) => (CommandStep::Return(Err(message)), Vec::new()),
    }
}

/// The answer to a command that had the core load the profile list, and what is
/// done then.
pub open spec fn core_update(updated: Result<(bool, String), String>) -> (
    Result<(), String>,
    Seq<CommandEffect>,
) {
    match updated {
        Ok(_) => (Ok(()), seq![CommandEffect::RefreshClash]),
        Err(message) => (Err(message), seq![]),
    }
}

/// Takes the answer of the core to a command that had it load the profile list.
/// Whether the core found the list valid is not asked; only a core that could not
/// be reached makes the command fail, and leaves its configuration as it is.
pub fn after_core_update(updated: Result<(bool, String), String>) -> (next: (
    Result<(), String>,
    Vec<CommandEffect>,
))
    ensures
        next.0 == core_update(updated).0,
        next.1@ == core_update(updated).1,
        next.0 == match updated {
            Ok(_) => Ok::<(), String>(()),
            Err(message) => Err(message),
        },
        next.1@ == if updated is Ok {
            seq![CommandEffect::RefreshClash]
        } else {
            seq![]
        },
{
    match updated {
        Ok(_) => (Ok(()), vec![CommandEffect::RefreshClash]),
        Err(message) => (Err(message), Vec::new()),
    }
}

/// What follows the refreshes at start.
pub open spec fn start_up(results: Seq<Result<(), String>>) -> CommandStep {
    if exists|i: int| 0 <= i < results.len() && #[trigger] results[i] is Ok {
        CommandStep::UpdateCore
    } else {
        CommandStep::Return(Ok(()))
    }
}

/// Takes the ends of all refreshes at start: the core loads the profile list again
/// if at least one refresh succeeded. That others failed, or that there was
/// nothing to refresh, is no error.
pub fn update_profiles_on_startup(results: &Vec<Result<(), String>>) -> (step: CommandStep)
    ensures
        step == start_up(results@),
        step == if exists|i: int| 0 <= i < results@.len() && #[trigger] results@[i] is Ok {
            CommandStep::UpdateCore
        } else {
            CommandStep::Return(Ok(()))
        },
{
    let mut i: usize = 0;
    while i < results.len()
        invariant
            i <= results@.len(),
            forall|j: int| 0 <= j < i ==> !(#[trigger] results@[j] is Ok),
        decreases results@.len() - i,
    {
        if results[i].is_ok() {
            assert(results@[i as int] is Ok);
            return CommandStep::UpdateCore;
        }
        i = i + 1;
    }
    CommandStep::Return(Ok(()))
}

/// The answer to a request to replace the profile `index`, and what is done then.
pub open spec fn replacement_of(
    index: String,
    previous: Option<PrfItem>,
    replacement: PrfItem,
    patched: Result<(), String>,
) -> (Result<(), String>, Seq<CommandEffect>) {
    (
        patched,
        if patched is Ok && previous is Some && crate::profiles::interval_of(previous->0)
            != crate::profiles::interval_of(replacement) {
            seq![CommandEffect::RefreshTimer(index)]
        } else {
            seq![]
        },
    )
}

/// Takes the end of replacing the profile `index`: the timer is refreshed only if
/// the profile was there before and the replacement asks for another interval.
pub fn patch_profile(
    index: String,
    previous: &Option<PrfItem>,
    replacement: &PrfItem,
    patched: Result<(), String>,
) -> (next: (Result<(), String>, Vec<CommandEffect>))
    ensures
        next.0 == replacement_of(index, *previous, *replacement, patched).0,
        next.1@ == replacement_of(index, *previous, *replacement, patched).1,
        next.0 == patched,
        next.1@ == if patched is Ok && previous is Some && crate::profiles::interval_of(
            previous->0,
        ) != crate::profiles::interval_of(*replacement) {
            seq![CommandEffect::RefreshTimer(index)]
        } else {
            seq![]
        },
{
    let changed: bool = update_interval_changed(previous, replacement);
    match patched {
        Ok(done) => if changed {
            (Ok(done), vec![CommandEffect::RefreshTimer(index)])
        } else {
            (Ok(done), Vec::new())
        },
        Err(message) => (Err(message), Vec::new()),
    }
}

/// What is done once the timer for a profile was refreshed.
pub open spec fn timer_refresh(index: String, refreshed: Result<(), String>) -> Seq<CommandEffect> {
    if refreshed is Ok {
        seq![CommandEffect::NotifyTimerUpdated(index)]
    } else {
        seq![]
    }
}

/// Takes the end of refreshing the timer for a profile: the front end hears of it
/// only if it succeeded.
pub fn after_timer_refresh(index: String, refreshed: Result<(), String>) -> (effects: Vec<
    CommandEffect,
>)
    ensures
        effects@ == timer_refresh(index, refreshed),
        effects@ == if refreshed is Ok {
            seq![CommandEffect::NotifyTimerUpdated(index)]
        } else {
            seq![]
        },
{
    match refreshed {
        Ok(_) => vec![CommandEffect::NotifyTimerUpdated(index)],
        Err(_) => Vec::new(),
    }
}

/// Why a profile cannot be shown.
#[derive(Debug, PartialEq, Eq)]
pub enum ViewError {
    /// There is no such profile.
    Lookup(String),
    /// The profile has no file.
    NoFile,
    /// The directory of the profiles is not known.
    Directory(String),
    /// The file is not there.
    FileNotFound,
    /// The file could not be opened.
    Open(String),
}

/// The message of the error.
pub open spec fn view_error_message(error: ViewError) -> Seq<char> {
    match error {
        ViewError::Lookup(message) => message@,
        ViewError::NoFile => "the file field is null"@,
        ViewError::Directory(message) => message@,
        ViewError::FileNotFound => "the file not found"@,
        ViewError::Open(message) => message@,
    }
}

impl ViewError {
    /// The message of the error.
    pub fn message(&self) -> (message: String)
        ensures
            message@ == view_error_message(*self),
    {
        match self {
            ViewError::Lookup(message) => message.clone(),
            ViewError::NoFile => "the file field is null".to_string(),
            ViewError::Directory(message) => message.clone(),
            ViewError::FileNotFound => "the file not found".to_string(),
            ViewError::Open(message) => message.clone(),
        }
    }
}

/// What showing a profile waits for.
#[derive(Debug, PartialEq, Eq)]
pub enum ViewStage {
    /// The profile in the list.
    FindingItem,
    /// The path of this file.
    ResolvingPath(String),
    /// Whether there is a file at this path.
    CheckingFile(String),
    /// The file at this path to be opened.
    Opening(String),
    /// Nothing: it has come to this end.
    Finished(Result<(), ViewError>),
}

/// An answer from the outside to what showing a profile waits for.
#[derive(Debug, PartialEq, Eq)]
pub enum ViewEvent {
    Item(Result<PrfItem, String>),
    Path(Result<String, String>),
    FileExists(bool),
    Opened(Result<(), String>),
}

/// The course of showing a profile: a profile that has a file, in a directory that
/// is known, is opened if the file is there; the first of these that fails is the
/// error.
pub open spec fn view_step(stage: ViewStage, event: ViewEvent) -> ViewStage {
    match (stage, event) {
        (ViewStage::FindingItem, ViewEvent::Item(found)) => match found {
            Ok(item) => match item.file {
                Some(file) => ViewStage::ResolvingPath(file),
                None => ViewStage::Finished(Err(ViewError::NoFile)),
            },
            Err(message) => ViewStage::Finished(Err(ViewError::Lookup(message))),
        },
        (ViewStage::ResolvingPath(_), ViewEvent::Path(resolved)) => match resolved {
            Ok(path) => ViewStage::CheckingFile(path),
            Err(message) => ViewStage::Finished(Err(ViewError::Directory(message))),
        },
        (ViewStage::CheckingFile(path), ViewEvent::FileExists(exists)) => if exists {
            ViewStage::Opening(path)
        } else {
            ViewStage::Finished(Err(ViewError::FileNotFound))
        },
        (ViewStage::Opening(_), ViewEvent::Opened(opened)) => ViewStage::Finished(
            match opened {
                Ok(_) => Ok(()),
                Err(message) => Err(ViewError::Open(message)),
            },
        ),
        _ => stage,
    }
}

/// Takes the answer to what showing a profile waits for. An answer to anything
/// else changes nothing.
pub fn view_profile(stage: ViewStage, event: ViewEvent) -> (next: ViewStage)
    ensures
        next == view_step(stage, event),
{
    match (stage, event) {
        (ViewStage::FindingItem, ViewEvent::Item(found)) => match found {
            Ok(item) => match item.file {
                Some(file) => ViewStage::ResolvingPath(file),
                None => ViewStage::Finished(Err(ViewError::NoFile)),
            },
            Err(message) => ViewStage::Finished(Err(ViewError::Lookup(message))),
        },
        (ViewStage::ResolvingPath(_), ViewEvent::Path(resolved)) => match resolved {
            Ok(path) => ViewStage::CheckingFile(path),
            Err(message) => ViewStage::Finished(Err(ViewError::Directory(message))),
        },
        (ViewStage::CheckingFile(path), ViewEvent::FileExists(exists)) => if exists {
            ViewStage::Opening(path)
        } else {
            ViewStage::Finished(Err(ViewError::FileNotFound))
        },
        (ViewStage::Opening(_), ViewEvent::Opened(opened)) => ViewStage::Finished(
            match opened {
                Ok(_) => Ok(()),
                Err(message) => Err(ViewError::Open(message)),
            },
        ),
        (stage, _) => stage,
    }
}

/// A file is opened only after the profile was found, has that file, and the file
/// is there; then the path that is opened is the one that was found.
pub proof fn law_only_a_present_file_is_opened(item: PrfItem, path: String, exists: bool)
    ensures
        ({
            let found = view_step(ViewStage::FindingItem, ViewEvent::Item(Ok(item)));
            let resolved = view_step(found, ViewEvent::Path(Ok(path)));
            let checked = view_step(resolved, ViewEvent::FileExists(exists));
            checked == if item.file is None {
                ViewStage::Finished(Err(ViewError::NoFile))
            } else if exists {
                ViewStage::Opening(path)
            } else {
                ViewStage::Finished(Err(ViewError::FileNotFound))
            }
        }),
{
}

} // verus!
