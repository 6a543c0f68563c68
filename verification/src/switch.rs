//! Switching the profile in use.
//!
//! A switch is a sequence of questions to the outside (a lock, the newest request
//! number, a file, the proxy core) and of effects on it. [`Switch::query`] says
//! what is asked next, [`patch_profiles_config`] takes the answer, and gives the
//! effects to perform, in order, before the next question. What a profile list
//! holds of each profile, an `I`, passes through a switch as it is.

use crate::notice::Notice;
use crate::profiles::{copy_text, IProfiles, PrfItem};
use crate::text::same_text;
use crate::yaml::parse_yaml;
use vstd::prelude::*;

verus! {

/// How long a switch waits for its turn before it looks for newer requests.
pub const LOCK_TIMEOUT_MS: u64 = 100;

/// How long reading the file of the target may take.
pub const FILE_READ_TIMEOUT_MS: u64 = 5000;

/// How long the core may take to load the new configuration.
pub const CORE_UPDATE_TIMEOUT_MS: u64 = 30000;

/// The end of an attempt to read the file of the target.
#[derive(Debug, PartialEq, Eq)]
pub enum FileOutcome {
    Content(String),
    Failed(String),
    TimedOut,
}

/// The end of an attempt to parse the file of the target.
#[derive(Debug, PartialEq, Eq)]
pub enum SyntaxOutcome {
    Valid,
    Invalid(String),
    TaskFailed(String),
}

/// The end of an attempt to load the new configuration into the core.
#[derive(Debug, PartialEq, Eq)]
pub enum CoreOutcome {
    Accepted,
    Rejected(String),
    Failed(String),
    TimedOut,
}

/// An answer from the outside.
#[derive(Debug, PartialEq, Eq)]
pub enum SwitchEvent {
    /// Whether the lock was got in time.
    LockTried(bool),
    /// The lock was got.
    LockTaken,
    /// The number of the newest request.
    LatestSequence(u64),
    /// The profile in use.
    CurrentProfile(Option<String>),
    /// The target in the profile list.
    TargetItem(Result<PrfItem, String>),
    /// The path of the file of the target.
    TargetPath(Result<String, String>),
    /// Whether there is such a file.
    FileExists(bool),
    /// What the file holds.
    FileRead(FileOutcome),
    /// Whether that is a YAML document.
    SyntaxChecked(SyntaxOutcome),
    /// What the core made of the new configuration.
    CoreUpdated(CoreOutcome),
    /// Whether the draft could be set back to the previous profile.
    Restored(Result<(), String>),
}

/// Something to be done outside.
#[derive(Debug, PartialEq, Eq)]
pub enum SwitchEffect<I = PrfItem> {
    /// Record the profile as the one being processed.
    MarkProcessing(String),
    /// Record that no profile is being processed.
    ClearProcessing,
    /// Patch the draft of the profile list.
    PatchDraft(IProfiles<I>),
    /// Drop the draft.
    DiscardDraft,
    /// Make the draft the profile list in force.
    ApplyDraft,
    /// Tell the front end to reload the core configuration.
    RefreshClash,
    /// Start to refresh the cached proxies.
    RefreshProxies,
    /// Start to update the tray and then to save the profile list.
    UpdateTrayAndSave,
    /// Start to save the profile list.
    SaveProfiles,
    /// Tell the front end which profile is in use now.
    NotifyProfileChanged(String),
    /// Show a message.
    Notify(Notice),
}

/// What a switch waits for.
#[derive(Debug, PartialEq, Eq)]
pub enum SwitchStage {
    /// The lock, for a limited time.
    Locking,
    /// The newest request number, the lock not having been got in time.
    LockTimedOut,
    /// The lock, for as long as it takes.
    ForcingLock,
    /// The newest request number, under the lock.
    Locked,
    /// The profile in use.
    ReadingCurrent,
    /// The target in the profile list.
    FindingItem,
    /// The path of the file of the target.
    ResolvingPath(String),
    /// Whether that file is there.
    CheckingFile(String),
    /// What it holds.
    ReadingFile,
    /// Whether this is a YAML document.
    CheckingSyntax(String),
    /// The newest request number, the target being fit for use.
    Validated,
    /// The newest request number, the draft being patched.
    Drafted,
    /// What the core makes of the draft.
    UpdatingCore,
    /// The newest request number, the core having accepted the draft.
    CoreAccepted,
    /// The draft to be set back after the core rejected it.
    RestoringRejected(String),
    /// The draft to be set back after the core did not answer.
    RestoringTimedOut,
    /// Nothing: the switch has come to this end.
    Finished(Result<bool, String>),
}

/// A question to the outside.
#[derive(Debug, PartialEq, Eq)]
pub enum SwitchQuery<I = PrfItem> {
    /// Try to get the lock for so many milliseconds.
    TryLock(u64),
    /// Get the lock.
    Lock,
    /// Which number has the newest request?
    LatestSequence,
    /// Which profile is in use?
    CurrentProfile,
    /// What is the profile with this identifier?
    TargetItem(String),
    /// Where is this file?
    TargetPath(String),
    /// Is there a file at the path that was found?
    FileExists,
    /// What does that file hold? Wait so many milliseconds.
    ReadFile(u64),
    /// Is this a YAML document?
    CheckSyntax(String),
    /// Load the draft into the core. Wait so many milliseconds.
    UpdateCore(u64),
    /// Patch the draft with this.
    Restore(IProfiles<I>),
    /// None; answer the request with this.
    Return(Result<bool, String>),
}

/// A switch under way.
#[derive(Debug, PartialEq, Eq)]
pub struct Switch<I = PrfItem> {
    /// The number of this request.
    pub sequence: u64,
    /// The profile to switch to.
    pub target: Option<String>,
    /// What the draft is to be patched with, until it has been.
    pub request: Option<IProfiles<I>>,
    /// The profile in use before, once it is known.
    pub previous: Option<String>,
    /// What the switch waits for.
    pub stage: SwitchStage,
}

/// Whether nothing has been done to the draft yet.
pub open spec fn before_draft(stage: SwitchStage) -> bool {
    match stage {
        SwitchStage::Locking
        | SwitchStage::LockTimedOut
        | SwitchStage::ForcingLock
        | SwitchStage::Locked
        | SwitchStage::ReadingCurrent
        | SwitchStage::FindingItem
        | SwitchStage::ResolvingPath(_)
        | SwitchStage::CheckingFile(_)
        | SwitchStage::ReadingFile
        | SwitchStage::CheckingSyntax(_)
        | SwitchStage::Validated => true,
        _ => false,
    }
}

/// The stages in which a switch waits for the newest request number.
pub open spec fn at_checkpoint(stage: SwitchStage) -> bool {
    match stage {
        SwitchStage::LockTimedOut
        | SwitchStage::Locked
        | SwitchStage::Validated
        | SwitchStage::Drafted
        | SwitchStage::CoreAccepted => true,
        _ => false,
    }
}

impl<I> Switch<I> {
    /// The invariant of the type.
    pub open spec fn well_formed(self) -> bool {
        &&& before_draft(self.stage) ==> self.request is Some && self.request->0.current
            == self.target
        &&& self.stage is FindingItem ==> self.target is Some
        &&& self.stage is RestoringRejected || self.stage is RestoringTimedOut
            ==> self.previous is Some
    }

    /// Whether `event` answers the question that the switch asks.
    pub open spec fn awaits(self, event: SwitchEvent) -> bool {
        match self.stage {
            SwitchStage::Locking => event is LockTried,
            SwitchStage::ForcingLock => event is LockTaken,
            SwitchStage::LockTimedOut
            | SwitchStage::Locked
            | SwitchStage::Validated
            | SwitchStage::Drafted
            | SwitchStage::CoreAccepted => event is LatestSequence,
            SwitchStage::ReadingCurrent => event is CurrentProfile,
            SwitchStage::FindingItem => event is TargetItem,
            SwitchStage::ResolvingPath(_) => event is TargetPath,
            SwitchStage::CheckingFile(_) => event is FileExists,
            SwitchStage::ReadingFile => event is FileRead,
            SwitchStage::CheckingSyntax(_) => event is SyntaxChecked,
            SwitchStage::UpdatingCore => event is CoreUpdated,
            SwitchStage::RestoringRejected(_) | SwitchStage::RestoringTimedOut => event is Restored,
            SwitchStage::Finished(_) => false,
        }
    }

    /// What the switch asks next.
    pub open spec fn asks(self) -> SwitchQuery<I> {
        match self.stage {
            SwitchStage::Locking => SwitchQuery::TryLock(LOCK_TIMEOUT_MS),
            SwitchStage::ForcingLock => SwitchQuery::Lock,
            SwitchStage::LockTimedOut
            | SwitchStage::Locked
            | SwitchStage::Validated
            | SwitchStage::Drafted
            | SwitchStage::CoreAccepted => SwitchQuery::LatestSequence,
            SwitchStage::ReadingCurrent => SwitchQuery::CurrentProfile,
            SwitchStage::FindingItem => SwitchQuery::TargetItem(self.target->0),
            SwitchStage::ResolvingPath(file) => SwitchQuery::TargetPath(file),
            SwitchStage::CheckingFile(_) => SwitchQuery::FileExists,
            SwitchStage::ReadingFile => SwitchQuery::ReadFile(FILE_READ_TIMEOUT_MS),
            SwitchStage::CheckingSyntax(content) => SwitchQuery::CheckSyntax(content),
            SwitchStage::UpdatingCore => SwitchQuery::UpdateCore(CORE_UPDATE_TIMEOUT_MS),
            SwitchStage::RestoringRejected(_) | SwitchStage::RestoringTimedOut => {
                SwitchQuery::Restore(IProfiles { current: self.previous, items: None })
            },
            SwitchStage::Finished(result) => SwitchQuery::Return(result),
        }
    }

    /// The switch in another stage.
    pub open spec fn at(self, stage: SwitchStage) -> Switch<I> {
        Switch { stage, ..self }
    }

    /// The switch at its end.
    pub open spec fn ended(self, result: Result<bool, String>) -> Switch<I> {
        self.at(SwitchStage::Finished(result))
    }
}

/// What is done about the target when the draft is patched: it is recorded as
/// the profile being processed.
pub open spec fn mark_effects<I>(target: Option<String>) -> Seq<SwitchEffect<I>> {
    match target {
        Some(profile) => seq![SwitchEffect::MarkProcessing(profile)],
        None => seq![],
    }
}

/// What is done when the draft is patched.
pub open spec fn draft_effects<I>(
    target: Option<String>,
    request: IProfiles<I>,
) -> Seq<SwitchEffect<I>> {
    mark_effects(target).push(SwitchEffect::PatchDraft(request))
}

/// What is done when the switch has succeeded.
pub open spec fn success_effects<I>(target: Option<String>) -> Seq<SwitchEffect<I>> {
    seq![
        SwitchEffect::ApplyDraft,
        SwitchEffect::RefreshClash,
        SwitchEffect::RefreshProxies,
        SwitchEffect::UpdateTrayAndSave,
    ] + (match target {
        Some(profile) => seq![SwitchEffect::NotifyProfileChanged(profile)],
        None => seq![],
    }) + seq![SwitchEffect::ClearProcessing]
}

/// What is done when the core did not take the draft and there is nothing to go
/// back to.
pub open spec fn failure_effects<I>(notice: Notice) -> Seq<SwitchEffect<I>> {
    seq![
        SwitchEffect::DiscardDraft,
        SwitchEffect::Notify(notice),
        SwitchEffect::ClearProcessing,
    ]
}

/// What is done when the target cannot be used: a message is shown.
pub open spec fn refusal_effects<I>(notice: Notice) -> Seq<SwitchEffect<I>> {
    seq![SwitchEffect::Notify(notice)]
}

/// What is done when the draft, rejected by the core, was set back to the
/// previous profile.
pub open spec fn rejection_effects<I>(message: String) -> Seq<SwitchEffect<I>> {
    seq![
        SwitchEffect::ApplyDraft,
        SwitchEffect::SaveProfiles,
        SwitchEffect::Notify(Notice::Rejected(message)),
        SwitchEffect::ClearProcessing,
    ]
}

/// What is done when the draft, to which the core did not answer, was set back to
/// the previous profile.
pub open spec fn timeout_effects<I>() -> Seq<SwitchEffect<I>> {
    seq![
        SwitchEffect::ApplyDraft,
        SwitchEffect::Notify(Notice::CoreTimeout),
        SwitchEffect::ClearProcessing,
    ]
}

/// The course of a switch: its next stage and the effects to perform, once it is
/// given an answer that it awaits.
///
/// At each checkpoint the switch gives up where a newer request has come in; a
/// draft that it has made is dropped then. The file of a target that differs
/// from the profile in use must be readable YAML, if its path is known. A draft
/// that the core refuses, or does not answer to, is dropped, and the list goes
/// back to the previous profile.
pub open spec fn step<I>(
    switch: Switch<I>,
    event: SwitchEvent,
) -> (Switch<I>, Seq<SwitchEffect<I>>) {
    match (switch.stage, event) {
        (SwitchStage::Locking, SwitchEvent::LockTried(taken)) => if taken {
            (switch.at(SwitchStage::Locked), seq![])
        } else {
            (switch.at(SwitchStage::LockTimedOut), seq![])
        },
        (SwitchStage::ForcingLock, SwitchEvent::LockTaken) => (
            switch.at(SwitchStage::Locked),
            seq![],
        ),
        (stage, SwitchEvent::LatestSequence(latest)) => if switch.sequence < latest {
            (
                switch.ended(Ok(false)),
                if before_draft(stage) {
                    seq![]
                } else {
                    seq![SwitchEffect::DiscardDraft]
                },
            )
        } else {
            match stage {
                SwitchStage::LockTimedOut => (switch.at(SwitchStage::ForcingLock), seq![]),
                SwitchStage::Locked => (switch.at(SwitchStage::ReadingCurrent), seq![]),
                SwitchStage::Validated => (
                    Switch { request: None, stage: SwitchStage::Drafted, ..switch },
                    draft_effects(switch.target, switch.request->0),
                ),
                SwitchStage::Drafted => (switch.at(SwitchStage::UpdatingCore), seq![]),
                SwitchStage::CoreAccepted => (
                    switch.ended(Ok(true)),
                    success_effects(switch.target),
                ),
                _ => (switch, seq![]),
            }
        },
        (SwitchStage::ReadingCurrent, SwitchEvent::CurrentProfile(previous)) => (
            Switch {
                previous,
                stage: if switch.target is Some && crate::profiles::text_of(previous)
                    != crate::profiles::text_of(switch.target) {
                    SwitchStage::FindingItem
                } else {
                    SwitchStage::Validated
                },
                ..switch
            },
            seq![],
        ),
        (SwitchStage::FindingItem, SwitchEvent::TargetItem(found)) => (
            switch.at(
                match found {
                    Ok(PrfItem { file: Some(file), .. }) => SwitchStage::ResolvingPath(file),
                    _ => SwitchStage::Validated,
                },
            ),
            seq![],
        ),
        (SwitchStage::ResolvingPath(_), SwitchEvent::TargetPath(resolved)) => (
            switch.at(
                match resolved {
                    Ok(path) => SwitchStage::CheckingFile(path),
                    Err(_) => SwitchStage::Validated,
                },
            ),
            seq![],
        ),
        (SwitchStage::CheckingFile(path), SwitchEvent::FileExists(exists)) => if exists {
            (switch.at(SwitchStage::ReadingFile), seq![])
        } else {
            (switch.ended(Ok(false)), refusal_effects(Notice::FileNotFound(path)))
        },
        (SwitchStage::ReadingFile, SwitchEvent::FileRead(outcome)) => match outcome {
            FileOutcome::Content(content) => (
                switch.at(SwitchStage::CheckingSyntax(content)),
                seq![],
            ),
            FileOutcome::Failed(message) => (
                switch.ended(Ok(false)),
                refusal_effects(Notice::FileRead(message)),
            ),
            FileOutcome::TimedOut => (
                switch.ended(Ok(false)),
                refusal_effects(Notice::FileReadTimeout),
            ),
        },
        (SwitchStage::CheckingSyntax(_), SwitchEvent::SyntaxChecked(outcome)) => match outcome {
            SyntaxOutcome::Valid => (switch.at(SwitchStage::Validated), seq![]),
            SyntaxOutcome::Invalid(message) => (
                switch.ended(Ok(false)),
                refusal_effects(Notice::YamlSyntax(message)),
            ),
            SyntaxOutcome::TaskFailed(message) => (
                switch.ended(Ok(false)),
                refusal_effects(Notice::YamlTask(message)),
            ),
        },
        (SwitchStage::UpdatingCore, SwitchEvent::CoreUpdated(outcome)) => match outcome {
            CoreOutcome::Accepted => (switch.at(SwitchStage::CoreAccepted), seq![]),
            CoreOutcome::Rejected(message) => if switch.previous is Some {
                (
                    switch.at(SwitchStage::RestoringRejected(message)),
                    seq![SwitchEffect::DiscardDraft],
                )
            } else {
                (switch.ended(Ok(false)), failure_effects(Notice::Rejected(message)))
            },
            CoreOutcome::Failed(message) => (
                switch.ended(Ok(false)),
                failure_effects(Notice::BootError(message)),
            ),
            CoreOutcome::TimedOut => if switch.previous is Some {
                (switch.at(SwitchStage::RestoringTimedOut), seq![SwitchEffect::DiscardDraft])
            } else {
                (switch.ended(Ok(false)), failure_effects(Notice::CoreTimeout))
            },
        },
        (SwitchStage::RestoringRejected(message), SwitchEvent::Restored(done)) => match done {
            Ok(_) => (
                switch.ended(Ok(false)),
                rejection_effects(message),
            ),
            Err(error) => (switch.ended(Err(error)), seq![]),
        },
        (SwitchStage::RestoringTimedOut, SwitchEvent::Restored(done)) => match done {
            Ok(_) => (
                switch.ended(Ok(false)),
                timeout_effects(),
            ),
            Err(error) => (switch.ended(Err(error)), seq![]),
        },
        _ => (switch, seq![]),
    }
}

/// The number after `counter`, if there is one.
pub open spec fn following(counter: u64) -> Option<u64> {
    if counter < u64::MAX {
        Some((counter + 1) as u64)
    } else {
        None
    }
}

/// The number of the request after the one with the number `counter`; none where
/// the numbers are used up.
pub fn next_sequence(counter: u64) -> (next: Option<u64>)
    ensures
        next == following(counter),
        next == if counter < u64::MAX {
            Some((counter + 1) as u64)
        } else {
            None
        },
{
    if counter < u64::MAX {
        Some(counter + 1)
    } else {
        None
    }
}

/// The switch to what `profiles` asks for, as it starts. `counter` is the number of
/// the request before this one.
pub open spec fn new_switch<I>(counter: u64, profiles: IProfiles<I>) -> Switch<I> {
    Switch {
        sequence: (counter + 1) as u64,
        target: profiles.current,
        request: Some(profiles),
        previous: None,
        stage: SwitchStage::Locking,
    }
}

/// Starts a switch to what `profiles` asks for. `counter` is the number of the
/// request before this one.
pub fn begin_switch<I>(counter: u64, profiles: IProfiles<I>) -> (switch: Switch<I>)
    requires
        counter < u64::MAX,
    ensures
        switch.well_formed(),
        switch == new_switch(counter, profiles),
{
    let target: Option<String> = copy_text(&profiles.current);
    Switch {
        sequence: counter + 1,
        target,
        request: Some(profiles),
        previous: None,
        stage: SwitchStage::Locking,
    }
}

/// The switch to the profile `profile_index`, as it starts.
pub open spec fn switch_to<I>(counter: u64, profile_index: String) -> Switch<I> {
    new_switch(counter, IProfiles { current: Some(profile_index), items: None })
}

/// Starts a switch to the profile `profile_index`, which leaves the list of
/// profiles as it is.
pub fn patch_profiles_config_by_profile_index<I>(counter: u64, profile_index: String) -> (switch:
    Switch<I>)
    requires
        counter < u64::MAX,
    ensures
        switch == switch_to::<I>(counter, profile_index),
        switch.well_formed(),
        switch == new_switch(
            counter,
            IProfiles::<I> { current: Some(profile_index), items: None },
        ),
{
    begin_switch(counter, IProfiles { current: Some(profile_index), items: None })
}

impl<I> Switch<I> {
    /// Whether `event` answers the question that the switch asks.
    pub fn accepts(&self, event: &SwitchEvent) -> (accepted: bool)
        ensures
            accepted == self.awaits(*event),
    {
        match (&self.stage, event) {
            (SwitchStage::Locking, SwitchEvent::LockTried(_)) => true,
            (SwitchStage::ForcingLock, SwitchEvent::LockTaken) => true,
            (SwitchStage::LockTimedOut, SwitchEvent::LatestSequence(_)) => true,
            (SwitchStage::Locked, SwitchEvent::LatestSequence(_)) => true,
            (SwitchStage::Validated, SwitchEvent::LatestSequence(_)) => true,
            (SwitchStage::Drafted, SwitchEvent::LatestSequence(_)) => true,
            (SwitchStage::CoreAccepted, SwitchEvent::LatestSequence(_)) => true,
            (SwitchStage::ReadingCurrent, SwitchEvent::CurrentProfile(_)) => true,
            (SwitchStage::FindingItem, SwitchEvent::TargetItem(_)) => true,
            (SwitchStage::ResolvingPath(_), SwitchEvent::TargetPath(_)) => true,
            (SwitchStage::CheckingFile(_), SwitchEvent::FileExists(_)) => true,
            (SwitchStage::ReadingFile, SwitchEvent::FileRead(_)) => true,
            (SwitchStage::CheckingSyntax(_), SwitchEvent::SyntaxChecked(_)) => true,
            (SwitchStage::UpdatingCore, SwitchEvent::CoreUpdated(_)) => true,
            (SwitchStage::RestoringRejected(_), SwitchEvent::Restored(_)) => true,
            (SwitchStage::RestoringTimedOut, SwitchEvent::Restored(_)) => true,
            _ => false,
        }
    }

    /// What the switch asks next.
    pub fn query(&self) -> (query: SwitchQuery<I>)
        requires
            self.well_formed(),
        ensures
            query == self.asks(),
    {
        match &self.stage {
            SwitchStage::Locking => SwitchQuery::TryLock(LOCK_TIMEOUT_MS),
            SwitchStage::ForcingLock => SwitchQuery::Lock,
            SwitchStage::LockTimedOut
            | SwitchStage::Locked
            | SwitchStage::Validated
            | SwitchStage::Drafted
            | SwitchStage::CoreAccepted => SwitchQuery::LatestSequence,
            SwitchStage::ReadingCurrent => SwitchQuery::CurrentProfile,
            SwitchStage::FindingItem => match &self.target {
                Some(target) => SwitchQuery::TargetItem(target.clone()),
                None => vstd::pervasive::unreached(),
            },
            SwitchStage::ResolvingPath(file) => SwitchQuery::TargetPath(file.clone()),
            SwitchStage::CheckingFile(_) => SwitchQuery::FileExists,
            SwitchStage::ReadingFile => SwitchQuery::ReadFile(FILE_READ_TIMEOUT_MS),
            SwitchStage::CheckingSyntax(content) => SwitchQuery::CheckSyntax(content.clone()),
            SwitchStage::UpdatingCore => SwitchQuery::UpdateCore(CORE_UPDATE_TIMEOUT_MS),
            SwitchStage::RestoringRejected(_) | SwitchStage::RestoringTimedOut => {
                SwitchQuery::Restore(IProfiles { current: copy_text(&self.previous), items: None })
            },
            SwitchStage::Finished(result) => SwitchQuery::Return(
                match result {
                    Ok(done) => Ok(*done),
                    Err(message) => Err(message.clone()),
                },
            ),
        }
    }
}

/// Whether `outcome` is what a check of this content for being a YAML document comes
/// to.
pub open spec fn is_syntax_of(content: Seq<char>, outcome: SyntaxOutcome) -> bool {
    match outcome {
        SyntaxOutcome::Valid => crate::yaml::yaml_parsed(content) is Ok,
        SyntaxOutcome::Invalid(message) => crate::yaml::yaml_parsed(content) == Err::<
            crate::yaml::Yaml,
            Seq<char>,
        >(message@),
        SyntaxOutcome::TaskFailed(_) => false,
    }
}

/// Checks whether the content of a file is a YAML document.
pub fn check_syntax(content: &str) -> (outcome: SyntaxOutcome)
    ensures
        is_syntax_of(content@, outcome),
        match outcome {
            SyntaxOutcome::Valid => crate::yaml::yaml_parsed(content@) is Ok,
            SyntaxOutcome::Invalid(message) => crate::yaml::yaml_parsed(content@) == Err::<
                crate::yaml::Yaml,
                Seq<char>,
            >(message@),
            SyntaxOutcome::TaskFailed(_) => false,
        },
{
    match parse_yaml(content) {
        Ok(_) => SyntaxOutcome::Valid,
        Err(message) => SyntaxOutcome::Invalid(message),
    }
}

/// What the answer of the core to the new configuration comes to.
pub open spec fn core_verdict(updated: Option<Result<(bool, String), String>>) -> CoreOutcome {
    match updated {
        Some(Ok((valid, message))) => if valid {
            CoreOutcome::Accepted
        } else {
            CoreOutcome::Rejected(message)
        },
        Some(Err(error)) => CoreOutcome::Failed(error),
        None => CoreOutcome::TimedOut,
    }
}

/// Reads the answer of the core to the new configuration, which says whether it is
/// valid and why not; there is none where the core did not answer in time.
pub fn core_outcome(updated: Option<Result<(bool, String), String>>) -> (outcome: CoreOutcome)
    ensures
        outcome == core_verdict(updated),
        outcome == match updated {
            Some(Ok((valid, message))) => if valid {
                CoreOutcome::Accepted
            } else {
                CoreOutcome::Rejected(message)
            },
            Some(Err(error)) => CoreOutcome::Failed(error),
            None => CoreOutcome::TimedOut,
        },
{
    match updated {
        Some(Ok((valid, message))) => if valid {
            CoreOutcome::Accepted
        } else {
            CoreOutcome::Rejected(message)
        },
        Some(Err(error)) => CoreOutcome::Failed(error),
        None => CoreOutcome::TimedOut,
    }
}

/// What stands in the record of the profile being processed after an effect.
pub open spec fn processing_after<I>(
    processing: Option<String>,
    effect: SwitchEffect<I>,
) -> Option<String> {
    match effect {
        SwitchEffect::MarkProcessing(profile) => Some(profile),
        SwitchEffect::ClearProcessing => None,
        _ => processing,
    }
}

/// Records that no profile is being processed.
pub fn cleanup_processing_state(processing: &mut Option<String>)
    ensures
        *final(processing) == None::<String>,
{
    *processing = None;
}

/// Carries an effect out on the record of the profile being processed.
pub fn track_processing<I>(processing: &mut Option<String>, effect: &SwitchEffect<I>)
    ensures
        *final(processing) == processing_after(*old(processing), *effect),
{
    match effect {
        SwitchEffect::MarkProcessing(profile) => {
            *processing = Some(profile.clone());
        },
        SwitchEffect::ClearProcessing => {
            cleanup_processing_state(processing);
        },
        _ => {},
    }
}

/// The switch in another stage, with no effects.
fn proceed<I>(switch: Switch<I>, stage: SwitchStage) -> (next: (Switch<I>, Vec<SwitchEffect<I>>))
    ensures
        next.0 == switch.at(stage),
        next.1@ == Seq::<SwitchEffect<I>>::empty(),
{
    (Switch { stage, ..switch }, Vec::new())
}

/// The switch at its end, with these effects.
fn finish<I>(
    switch: Switch<I>,
    result: Result<bool, String>,
    effects: Vec<SwitchEffect<I>>,
) -> (next: (Switch<I>, Vec<SwitchEffect<I>>))
    ensures
        next.0 == switch.ended(result),
        next.1@ == effects@,
{
    (Switch { stage: SwitchStage::Finished(result), ..switch }, effects)
}

/// The switch at its end because the target cannot be used, with this message.
fn refuse<I>(switch: Switch<I>, notice: Notice) -> (next: (Switch<I>, Vec<SwitchEffect<I>>))
    ensures
        next.0 == switch.ended(Ok(false)),
        next.1@ == refusal_effects::<I>(notice),
{
    finish(switch, Ok(false), vec![SwitchEffect::Notify(notice)])
}

/// Patches the draft with what the switch asks for.
fn patch_draft<I>(switch: Switch<I>) -> (next: (Switch<I>, Vec<SwitchEffect<I>>))
    requires
        switch.request is Some,
    ensures
        next.0 == (Switch { request: None, stage: SwitchStage::Drafted, ..switch }),
        next.1@ == draft_effects(switch.target, switch.request->0),
{
    let Switch { sequence, target, request, previous, stage: _ } = switch;
    let mut effects: Vec<SwitchEffect<I>> = Vec::new();
    if let Some(profile) = &target {
        effects.push(SwitchEffect::MarkProcessing(profile.clone()));
    }
    if let Some(profiles) = request {
        effects.push(SwitchEffect::PatchDraft(profiles));
    }
    assert(effects@ =~= draft_effects(switch.target, switch.request->0));
    (
        Switch { sequence, target, request: None, previous, stage: SwitchStage::Drafted },
        effects,
    )
}

/// Takes the outcome of loading the draft into the core.
fn judge_core<I>(switch: Switch<I>, outcome: CoreOutcome) -> (next: (
    Switch<I>,
    Vec<SwitchEffect<I>>,
))
    ensures
        next.0 == step(switch.at(SwitchStage::UpdatingCore), SwitchEvent::CoreUpdated(outcome)).0,
        next.1@ == step(switch.at(SwitchStage::UpdatingCore), SwitchEvent::CoreUpdated(outcome)).1,
{
    match outcome {
        CoreOutcome::Accepted => proceed(switch, SwitchStage::CoreAccepted),
        CoreOutcome::Rejected(message) => if switch.previous.is_some() {
            (
                Switch { stage: SwitchStage::RestoringRejected(message), ..switch },
                vec![SwitchEffect::DiscardDraft],
            )
        } else {
            fail(switch, Notice::Rejected(message))
        },
        CoreOutcome::Failed(message) => fail(switch, Notice::BootError(message)),
        CoreOutcome::TimedOut => if switch.previous.is_some() {
            (
                Switch { stage: SwitchStage::RestoringTimedOut, ..switch },
                vec![SwitchEffect::DiscardDraft],
            )
        } else {
            fail(switch, Notice::CoreTimeout)
        },
    }
}

/// The switch at its end because the core did not take the draft, with this
/// message.
fn fail<I>(switch: Switch<I>, notice: Notice) -> (next: (Switch<I>, Vec<SwitchEffect<I>>))
    ensures
        next.0 == switch.ended(Ok(false)),
        next.1@ == failure_effects::<I>(notice),
{
    finish(
        switch,
        Ok(false),
        vec![
            SwitchEffect::DiscardDraft,
            SwitchEffect::Notify(notice),
            SwitchEffect::ClearProcessing,
        ],
    )
}

/// The switch at its end, the target being in use.
fn succeed<I>(switch: Switch<I>) -> (next: (Switch<I>, Vec<SwitchEffect<I>>))
    ensures
        next.0 == switch.ended(Ok(true)),
        next.1@ == success_effects::<I>(switch.target),
{
    let mut effects: Vec<SwitchEffect<I>> = vec![
        SwitchEffect::ApplyDraft,
        SwitchEffect::RefreshClash,
        SwitchEffect::RefreshProxies,
        SwitchEffect::UpdateTrayAndSave,
    ];
    if let Some(profile) = &switch.target {
        effects.push(SwitchEffect::NotifyProfileChanged(profile.clone()));
    }
    effects.push(SwitchEffect::ClearProcessing);
    assert(effects@ =~= success_effects(switch.target));
    finish(switch, Ok(true), effects)
}

/// Takes the answer to the question that a switch asked: gives the switch in its
/// next stage and the effects to perform, in order, before the next question.
pub fn patch_profiles_config<I>(switch: Switch<I>, event: SwitchEvent) -> (next: (
    Switch<I>,
    Vec<SwitchEffect<I>>,
))
    requires
        switch.well_formed(),
        switch.awaits(event),
    ensures
        next.0 == step(switch, event).0,
        next.1@ == step(switch, event).1,
        next.0.well_formed(),
{
    let Switch { sequence, target, request, previous, stage } = switch;
    let waiting = Switch { sequence, target, request, previous, stage: SwitchStage::Locking };
    match (stage, event) {
        (SwitchStage::Locking, SwitchEvent::LockTried(taken)) => if taken {
            proceed(waiting, SwitchStage::Locked)
        } else {
            proceed(waiting, SwitchStage::LockTimedOut)
        },
        (SwitchStage::ForcingLock, SwitchEvent::LockTaken) => proceed(waiting, SwitchStage::Locked),
        (SwitchStage::LockTimedOut, SwitchEvent::LatestSequence(latest)) => {
            if sequence < latest {
                finish(waiting, Ok(false), Vec::new())
            } else {
                proceed(waiting, SwitchStage::ForcingLock)
            }
        },
        (SwitchStage::Locked, SwitchEvent::LatestSequence(latest)) => {
            if sequence < latest {
                finish(waiting, Ok(false), Vec::new())
            } else {
                proceed(waiting, SwitchStage::ReadingCurrent)
            }
        },
        (SwitchStage::ReadingCurrent, SwitchEvent::CurrentProfile(current)) => {
            let switching: bool = match (&waiting.target, &current) {
                (Some(target), Some(current)) => !same_text(current.as_str(), target.as_str()),
                (Some(_), None) => true,
                (None, _) => false,
            };
            let stage: SwitchStage = if switching {
                SwitchStage::FindingItem
            } else {
                SwitchStage::Validated
            };
            proceed(Switch { previous: current, ..waiting }, stage)
        },
        (SwitchStage::FindingItem, SwitchEvent::TargetItem(found)) => {
            let file: Option<String> = match found {
                Ok(item) => item.file,
                Err(_) => None,
            };
            match file {
                Some(file) => proceed(waiting, SwitchStage::ResolvingPath(file)),
                None => proceed(waiting, SwitchStage::Validated),
            }
        },
        (SwitchStage::ResolvingPath(_), SwitchEvent::TargetPath(resolved)) => match resolved {
            Ok(path) => proceed(waiting, SwitchStage::CheckingFile(path)),
            Err(_) => proceed(waiting, SwitchStage::Validated),
        },
        (SwitchStage::CheckingFile(path), SwitchEvent::FileExists(exists)) => if exists {
            proceed(waiting, SwitchStage::ReadingFile)
        } else {
            refuse(waiting, Notice::FileNotFound(path))
        },
        (SwitchStage::ReadingFile, SwitchEvent::FileRead(outcome)) => match outcome {
            FileOutcome::Content(content) => proceed(waiting, SwitchStage::CheckingSyntax(content)),
            FileOutcome::Failed(message) => refuse(waiting, Notice::FileRead(message)),
            FileOutcome::TimedOut => refuse(waiting, Notice::FileReadTimeout),
        },
        (SwitchStage::CheckingSyntax(_), SwitchEvent::SyntaxChecked(outcome)) => match outcome {
            SyntaxOutcome::Valid => proceed(waiting, SwitchStage::Validated),
            SyntaxOutcome::Invalid(message) => refuse(waiting, Notice::YamlSyntax(message)),
            SyntaxOutcome::TaskFailed(message) => refuse(waiting, Notice::YamlTask(message)),
        },
        (SwitchStage::Validated, SwitchEvent::LatestSequence(latest)) => {
            if sequence < latest {
                finish(waiting, Ok(false), Vec::new())
            } else {
                patch_draft(waiting)
            }
        },
        (SwitchStage::Drafted, SwitchEvent::LatestSequence(latest)) => {
            if sequence < latest {
                finish(waiting, Ok(false), vec![SwitchEffect::DiscardDraft])
            } else {
                proceed(waiting, SwitchStage::UpdatingCore)
            }
        },
        (SwitchStage::UpdatingCore, SwitchEvent::CoreUpdated(outcome)) => {
            judge_core(waiting, outcome)
        },
        (SwitchStage::CoreAccepted, SwitchEvent::LatestSequence(latest)) => {
            if sequence < latest {
                finish(waiting, Ok(false), vec![SwitchEffect::DiscardDraft])
            } else {
                succeed(waiting)
            }
        },
        (SwitchStage::RestoringRejected(message), SwitchEvent::Restored(done)) => match done {
            Ok(_) => finish(
                waiting,
                Ok(false),
                vec![
                    SwitchEffect::ApplyDraft,
                    SwitchEffect::SaveProfiles,
                    SwitchEffect::Notify(Notice::Rejected(message)),
                    SwitchEffect::ClearProcessing,
                ],
            ),
            Err(error) => finish(waiting, Err(error), Vec::new()),
        },
        (SwitchStage::RestoringTimedOut, SwitchEvent::Restored(done)) => match done {
            Ok(_) => finish(
                waiting,
                Ok(false),
                vec![
                    SwitchEffect::ApplyDraft,
                    SwitchEffect::Notify(Notice::CoreTimeout),
                    SwitchEffect::ClearProcessing,
                ],
            ),
            Err(error) => finish(waiting, Err(error), Vec::new()),
        },
        _ => vstd::pervasive::unreached(),
    }
}

} // verus!
