//! What a switch asks and does, by the answers that it was given.

use crate::notice::Notice;
use crate::profiles::{IProfiles, PrfItem};
use crate::switch::{
    CoreOutcome, FileOutcome, Switch, SwitchEffect, SwitchEvent, SwitchQuery, SwitchStage,
    SyntaxOutcome,
};
use vstd::prelude::*;

verus! {

/// A new switch has the number after the counter, goes for the profile that the
/// request names, holds the request as it is, and first tries to get the lock.
pub proof fn law_new_switch_holds_the_request<I>(counter: u64, profiles: IProfiles<I>)
    requires
        counter < u64::MAX,
    ensures
        ({
            let switch = crate::switch::new_switch(counter, profiles);
            &&& crate::switch_laws::begun(switch)
            &&& switch.sequence == counter + 1
            &&& switch.target == profiles.current
            &&& switch.request == Some(profiles)
            &&& switch.asks() == SwitchQuery::<I>::TryLock(100)
        }),
        crate::switch::following(counter) == Some(
            crate::switch::new_switch(counter, profiles).sequence,
        ),
        crate::switch::following(u64::MAX) is None,
{
}

/// A switch to a profile by its identifier goes for this profile, and asks for no
/// change of the list of profiles.
pub proof fn law_switch_by_identifier_changes_the_profile_alone<I>(
    counter: u64,
    profile_index: String,
)
    requires
        counter < u64::MAX,
    ensures
        ({
            let switch = crate::switch::switch_to::<I>(counter, profile_index);
            &&& crate::switch_laws::begun(switch)
            &&& switch.sequence == counter + 1
            &&& switch.target == Some(profile_index)
            &&& switch.request is Some
            &&& switch.request->0.current == Some(profile_index)
            &&& switch.request->0.items is None
        }),
{
}

/// An answer fits a switch exactly if it is one to the question that the switch
/// asks, whatever it says.
pub proof fn law_answer_fits_the_question<I>(switch: Switch<I>, event: SwitchEvent)
    requires
        switch.well_formed(),
    ensures
        switch.awaits(event) <==> match event {
            SwitchEvent::LockTried(_) => switch.asks() is TryLock,
            SwitchEvent::LockTaken => switch.asks() is Lock,
            SwitchEvent::LatestSequence(_) => switch.asks() is LatestSequence,
            SwitchEvent::CurrentProfile(_) => switch.asks() is CurrentProfile,
            SwitchEvent::TargetItem(_) => switch.asks() is TargetItem,
            SwitchEvent::TargetPath(_) => switch.asks() is TargetPath,
            SwitchEvent::FileExists(_) => switch.asks() is FileExists,
            SwitchEvent::FileRead(_) => switch.asks() is ReadFile,
            SwitchEvent::SyntaxChecked(_) => switch.asks() is CheckSyntax,
            SwitchEvent::CoreUpdated(_) => switch.asks() is UpdateCore,
            SwitchEvent::Restored(_) => switch.asks() is Restore,
        },
{
}

/// The answers up to some point fit as well.
proof fn lemma_answered_up_to<I>(switch: Switch<I>, events: Seq<SwitchEvent>, n: int)
    requires
        crate::switch_laws::answered(switch, events),
        0 <= n <= events.len(),
    ensures
        crate::switch_laws::answered(switch, events.take(n)),
    decreases events.len(),
{
    if n < events.len() {
        lemma_answered_up_to(switch, events.drop_last(), n);
        assert(events.drop_last().take(n) =~= events.take(n));
    } else {
        assert(events.take(n) =~= events);
    }
}

/// One more answer is given exactly if it is the last one or was given before.
proof fn lemma_one_more(events: Seq<SwitchEvent>)
    requires
        events.len() > 0,
    ensures
        forall|event: SwitchEvent| #[trigger]
            events.contains(event) <==> (events.drop_last().contains(event) || event
                == events.last()),
{
    let init = events.drop_last();
    assert forall|event: SwitchEvent| #[trigger] events.contains(event) <==> (init.contains(event)
        || event == events.last()) by {
        if init.contains(event) {
            assert(events[init.index_of(event)] == event);
        }
        assert(events[events.len() - 1] == events.last());
        if events.contains(event) && event != events.last() {
            assert(init[events.index_of(event)] == event);
        }
    }
}

/// Once the profile in use has been told, the switch has it as the previous one.
proof fn lemma_profile_told_is_the_previous<I>(
    switch: Switch<I>,
    events: Seq<SwitchEvent>,
    current: Option<String>,
)
    requires
        crate::switch_laws::begun(switch),
        crate::switch_laws::answered(switch, events),
        events.contains(SwitchEvent::CurrentProfile(current)),
    ensures
        crate::switch_laws::run(switch, events).0.previous == current,
        crate::switch_laws::answers_left(crate::switch_laws::run(switch, events).0.stage) < 10,
    decreases events.len(),
{
    let init = events.drop_last();
    lemma_one_more(events);
    crate::switch_laws::law_effects_of_a_switch(switch, init);
    crate::switch_laws::lemma_step_keeps(crate::switch_laws::run(switch, init).0, events.last());
    if init.contains(SwitchEvent::CurrentProfile(current)) {
        lemma_profile_told_is_the_previous(switch, init, current);
    }
}

/// What a switch asks next follows from the last answer, and where this told the
/// newest number, also from the one before it.
///
/// A number newer than its own ends the switch. Otherwise the switch gets the lock,
/// looks at the profile in use, and looks the target up if that is another one. A
/// target that has a file, in a directory that is known, has this very file checked
/// for being there, being readable and being YAML; one that fails this ends the
/// switch, and one that has no file to check goes on. The core then gets the draft,
/// and if it takes it, the switch has succeeded. If it rejects the draft or does not
/// answer, the draft is set back to the profile that was in use, if there was one.
pub proof fn law_question_after_an_answer<I>(switch: Switch<I>, events: Seq<SwitchEvent>)
    requires
        crate::switch_laws::begun(switch),
        crate::switch_laws::answered(switch, events),
        events.len() > 0,
    ensures
        ({
            let asked = crate::switch_laws::run(switch, events).0.asks();
            match events.last() {
                SwitchEvent::LockTried(_) | SwitchEvent::LockTaken => asked is LatestSequence,
                SwitchEvent::LatestSequence(latest) => {
                    &&& events.len() >= 2
                    &&& if switch.sequence < latest {
                        asked == SwitchQuery::<I>::Return(Ok(false))
                    } else {
                        match events[events.len() - 2] {
                            SwitchEvent::LockTried(taken) => if taken {
                                asked is CurrentProfile
                            } else {
                                asked is Lock
                            },
                            SwitchEvent::LockTaken => asked is CurrentProfile,
                            SwitchEvent::LatestSequence(_) => asked
                                == SwitchQuery::<I>::UpdateCore(30000),
                            SwitchEvent::CoreUpdated(_) => asked == SwitchQuery::<I>::Return(
                                Ok(true),
                            ),
                            _ => asked is LatestSequence,
                        }
                    }
                },
                SwitchEvent::CurrentProfile(current) => match switch.target {
                    Some(target) => if current is Some && current->0@ == target@ {
                        asked is LatestSequence
                    } else {
                        asked == SwitchQuery::<I>::TargetItem(target)
                    },
                    None => asked is LatestSequence,
                },
                SwitchEvent::TargetItem(found) => if found is Ok && found->Ok_0.file is Some {
                    asked == SwitchQuery::<I>::TargetPath(found->Ok_0.file->0)
                } else {
                    asked is LatestSequence
                },
                SwitchEvent::TargetPath(resolved) => if resolved is Ok {
                    asked is FileExists
                } else {
                    asked is LatestSequence
                },
                SwitchEvent::FileExists(present) => if present {
                    asked == SwitchQuery::<I>::ReadFile(5000)
                } else {
                    asked == SwitchQuery::<I>::Return(Ok(false))
                },
                SwitchEvent::FileRead(outcome) => match outcome {
                    FileOutcome::Content(content) => asked == SwitchQuery::<I>::CheckSyntax(
                        content,
                    ),
                    _ => asked == SwitchQuery::<I>::Return(Ok(false)),
                },
                SwitchEvent::SyntaxChecked(outcome) => if outcome is Valid {
                    asked is LatestSequence
                } else {
                    asked == SwitchQuery::<I>::Return(Ok(false))
                },
                SwitchEvent::CoreUpdated(outcome) => match outcome {
                    CoreOutcome::Accepted => asked is LatestSequence,
                    CoreOutcome::Failed(_) => asked == SwitchQuery::<I>::Return(Ok(false)),
                    _ => {
                        &&& exists|current: Option<String>| #[trigger]
                            events.contains(SwitchEvent::CurrentProfile(current))
                        &&& forall|current: Option<String>| #[trigger]
                            events.contains(SwitchEvent::CurrentProfile(current)) ==> asked == (
                            if current is Some {
                                SwitchQuery::Restore(IProfiles::<I> { current, items: None })
                            } else {
                                SwitchQuery::Return(Ok(false))
                            })
                    },
                },
                SwitchEvent::Restored(done) => match done {
                    Ok(_) => asked == SwitchQuery::<I>::Return(Ok(false)),
                    Err(error) => asked == SwitchQuery::<I>::Return(Err(error)),
                },
            }
        }),
{
    let init = events.drop_last();
    let before = crate::switch_laws::run(switch, init).0;
    crate::switch_laws::law_effects_of_a_switch(switch, init);
    crate::switch_laws::law_effects_of_a_switch(switch, events);
    lemma_one_more(events);
    if init.len() > 0 {
        assert(crate::switch_laws::answered(switch, init));
        let earlier = crate::switch_laws::run(switch, init.drop_last()).0;
        crate::switch_laws::law_effects_of_a_switch(switch, init.drop_last());
        assert(before == crate::switch::step(earlier, init.last()).0);
        assert(events[events.len() - 2] == init.last());
    }
    if events.last() is CoreUpdated {
        crate::switch_laws::lemma_answers_so_far(switch, init);
        assert(events.contains(SwitchEvent::CurrentProfile(before.previous)));
        assert forall|current: Option<String>| #[trigger]
            events.contains(SwitchEvent::CurrentProfile(current)) implies current
            == before.previous by {
            lemma_profile_told_is_the_previous(switch, init, current);
        }
    }
}

/// What a switch does on an answer follows from this answer, and at some points also
/// from the one before it.
///
/// Nothing is done before the target has been found fit but to show why it is not.
/// Then the target is recorded, and the draft is patched with the request as it came
/// in. A newer request has the draft dropped. A draft that the core took is put in
/// force, and the front end, the proxies, the tray and the file follow. One that it
/// did not take is dropped, and its reason is shown, once the profile that was in
/// use before is in force again.
pub proof fn law_effects_of_an_answer<I>(switch: Switch<I>, events: Seq<SwitchEvent>)
    requires
        crate::switch_laws::begun(switch),
        crate::switch_laws::answered(switch, events),
        events.len() > 0,
    ensures
        ({
            let done = crate::switch_laws::run(switch, events.drop_last()).1;
            let effects = crate::switch_laws::run(switch, events).1;
            let last = events.last();
            let previous = events[events.len() - 2];
            match last {
                SwitchEvent::LatestSequence(latest) => match previous {
                    SwitchEvent::LockTried(_) | SwitchEvent::LockTaken => effects == done,
                    SwitchEvent::LatestSequence(_) => if switch.sequence < latest {
                        effects == done.push(SwitchEffect::DiscardDraft)
                    } else {
                        effects == done
                    },
                    SwitchEvent::CoreUpdated(_) => if switch.sequence < latest {
                        effects == done.push(SwitchEffect::DiscardDraft)
                    } else if switch.target is Some {
                        effects == done + seq![
                            SwitchEffect::ApplyDraft,
                            SwitchEffect::RefreshClash,
                            SwitchEffect::RefreshProxies,
                            SwitchEffect::UpdateTrayAndSave,
                            SwitchEffect::NotifyProfileChanged(switch.target->0),
                            SwitchEffect::ClearProcessing,
                        ]
                    } else {
                        effects == done + seq![
                            SwitchEffect::ApplyDraft,
                            SwitchEffect::RefreshClash,
                            SwitchEffect::RefreshProxies,
                            SwitchEffect::UpdateTrayAndSave,
                            SwitchEffect::ClearProcessing,
                        ]
                    },
                    _ => if switch.sequence < latest {
                        effects == done
                    } else if switch.target is Some {
                        effects == done + seq![
                            SwitchEffect::MarkProcessing(switch.target->0),
                            SwitchEffect::PatchDraft(switch.request->0),
                        ]
                    } else {
                        effects == done.push(SwitchEffect::PatchDraft(switch.request->0))
                    },
                },
                SwitchEvent::FileExists(present) => if present {
                    effects == done
                } else {
                    &&& previous is TargetPath
                    &&& previous->TargetPath_0 is Ok
                    &&& effects == done.push(
                        SwitchEffect::Notify(Notice::FileNotFound(previous->TargetPath_0->Ok_0)),
                    )
                },
                SwitchEvent::FileRead(outcome) => match outcome {
                    FileOutcome::Content(_) => effects == done,
                    FileOutcome::Failed(error) => effects == done.push(
                        SwitchEffect::Notify(Notice::FileRead(error)),
                    ),
                    FileOutcome::TimedOut => effects == done.push(
                        SwitchEffect::Notify(Notice::FileReadTimeout),
                    ),
                },
                SwitchEvent::SyntaxChecked(outcome) => match outcome {
                    SyntaxOutcome::Valid => effects == done,
                    SyntaxOutcome::Invalid(error) => effects == done.push(
                        SwitchEffect::Notify(Notice::YamlSyntax(error)),
                    ),
                    SyntaxOutcome::TaskFailed(error) => effects == done.push(
                        SwitchEffect::Notify(Notice::YamlTask(error)),
                    ),
                },
                SwitchEvent::CoreUpdated(outcome) => match outcome {
                    CoreOutcome::Accepted => effects == done,
                    CoreOutcome::Failed(error) => effects == done + seq![
                        SwitchEffect::DiscardDraft,
                        SwitchEffect::Notify(Notice::BootError(error)),
                        SwitchEffect::ClearProcessing,
                    ],
                    CoreOutcome::Rejected(message) => forall|current: Option<String>| #[trigger]
                        events.contains(SwitchEvent::CurrentProfile(current)) ==> effects == (
                        if current is Some {
                            done.push(SwitchEffect::DiscardDraft)
                        } else {
                            done + seq![
                                SwitchEffect::DiscardDraft,
                                SwitchEffect::Notify(Notice::Rejected(message)),
                                SwitchEffect::ClearProcessing,
                            ]
                        }),
                    CoreOutcome::TimedOut => forall|current: Option<String>| #[trigger]
                        events.contains(SwitchEvent::CurrentProfile(current)) ==> effects == (
                        if current is Some {
                            done.push(SwitchEffect::DiscardDraft)
                        } else {
                            done + seq![
                                SwitchEffect::DiscardDraft,
                                SwitchEffect::Notify(Notice::CoreTimeout),
                                SwitchEffect::ClearProcessing,
                            ]
                        }),
                },
                SwitchEvent::Restored(restored) => if restored is Err {
                    effects == done
                } else {
                    match previous {
                        SwitchEvent::CoreUpdated(CoreOutcome::Rejected(message)) => effects == done
                            + seq![
                            SwitchEffect::ApplyDraft,
                            SwitchEffect::SaveProfiles,
                            SwitchEffect::Notify(Notice::Rejected(message)),
                            SwitchEffect::ClearProcessing,
                        ],
                        _ => {
                            &&& previous == SwitchEvent::CoreUpdated(CoreOutcome::TimedOut)
                            &&& effects == done + seq![
                                SwitchEffect::ApplyDraft,
                                SwitchEffect::Notify(Notice::CoreTimeout),
                                SwitchEffect::ClearProcessing,
                            ]
                        },
                    }
                },
                _ => effects == done,
            }
        }),
{
    let init = events.drop_last();
    let (before, done) = crate::switch_laws::run(switch, init);
    let effects = crate::switch_laws::run(switch, events).1;
    let added = crate::switch::step(before, events.last()).1;
    crate::switch_laws::law_effects_of_a_switch(switch, init);
    assert(effects == done + added);
    lemma_one_more(events);
    if init.len() > 0 {
        assert(crate::switch_laws::answered(switch, init));
        let earlier = crate::switch_laws::run(switch, init.drop_last()).0;
        crate::switch_laws::law_effects_of_a_switch(switch, init.drop_last());
        assert(before == crate::switch::step(earlier, init.last()).0);
        assert(events[events.len() - 2] == init.last());
    }
    if added.len() == 0 {
        assert(effects =~= done);
    } else if added.len() == 1 {
        assert(effects =~= done.push(added[0]));
    }
    if events.last() is CoreUpdated {
        assert forall|current: Option<String>| #[trigger]
            events.contains(SwitchEvent::CurrentProfile(current)) implies current
            == before.previous by {
            lemma_profile_told_is_the_previous(switch, init, current);
        }
    }
    if events.last() is LatestSequence && init.len() > 0 {
        assert(added.len() == 2 ==> added =~= seq![added[0], added[1]]);
        assert(added.len() == 5 ==> added =~= seq![
            added[0],
            added[1],
            added[2],
            added[3],
            added[4],
        ]);
        assert(added.len() == 6 ==> added =~= seq![
            added[0],
            added[1],
            added[2],
            added[3],
            added[4],
            added[5],
        ]);
    }
}

/// Whether a switch has gone past the check of its target.
pub open spec fn past_the_check<I>(reached: Switch<I>, effects: Seq<SwitchEffect<I>>) -> bool {
    ||| reached.stage is Validated
    ||| exists|request: IProfiles<I>| #[trigger] effects.contains(SwitchEffect::PatchDraft(request))
}

/// Whether the profile in use was told to be `current`.
spec fn told(events: Seq<SwitchEvent>, current: Option<String>) -> bool {
    events.contains(SwitchEvent::CurrentProfile(current))
}

/// Whether the target was looked up.
spec fn looked_up(events: Seq<SwitchEvent>) -> bool {
    exists|found: Result<PrfItem, String>| #[trigger]
        events.contains(SwitchEvent::TargetItem(found))
}

/// Whether a target with a file was found.
spec fn found_with_file(events: Seq<SwitchEvent>) -> bool {
    exists|item: PrfItem|
        #[trigger] events.contains(SwitchEvent::TargetItem(Ok(item))) && item.file is Some
}

/// Whether a path was asked for.
spec fn path_sought(events: Seq<SwitchEvent>) -> bool {
    exists|resolved: Result<String, String>| #[trigger]
        events.contains(SwitchEvent::TargetPath(resolved))
}

/// Whether a path was found.
spec fn path_found(events: Seq<SwitchEvent>) -> bool {
    exists|path: String| #[trigger] events.contains(SwitchEvent::TargetPath(Ok(path)))
}

/// Whether the file was there.
spec fn was_there(events: Seq<SwitchEvent>) -> bool {
    events.contains(SwitchEvent::FileExists(true))
}

/// Whether the file was read.
spec fn was_read(events: Seq<SwitchEvent>) -> bool {
    exists|content: String| #[trigger]
        events.contains(SwitchEvent::FileRead(FileOutcome::Content(content)))
}

/// Whether the file is a YAML document.
spec fn was_valid(events: Seq<SwitchEvent>) -> bool {
    events.contains(SwitchEvent::SyntaxChecked(SyntaxOutcome::Valid))
}

/// What one more answer adds to what is known of the target.
proof fn lemma_one_more_known(events: Seq<SwitchEvent>, current: Option<String>)
    requires
        events.len() > 0,
    ensures
        ({
            let init = events.drop_last();
            let event = events.last();
            &&& told(events, current) == (told(init, current) || event
                == SwitchEvent::CurrentProfile(current))
            &&& looked_up(events) == (looked_up(init) || event is TargetItem)
            &&& found_with_file(events) == (found_with_file(init) || event is TargetItem
                && event->TargetItem_0 is Ok && event->TargetItem_0->Ok_0.file is Some)
            &&& path_sought(events) == (path_sought(init) || event is TargetPath)
            &&& path_found(events) == (path_found(init) || event is TargetPath
                && event->TargetPath_0 is Ok)
            &&& was_there(events) == (was_there(init) || event == SwitchEvent::FileExists(true))
            &&& was_read(events) == (was_read(init) || event is FileRead
                && event->FileRead_0 is Content)
            &&& was_valid(events) == (was_valid(init) || event == SwitchEvent::SyntaxChecked(
                SyntaxOutcome::Valid,
            ))
        }),
{
    lemma_one_more(events);
    let init = events.drop_last();
    let event = events.last();
    if looked_up(init) {
        let found = choose|found: Result<PrfItem, String>| #[trigger]
            init.contains(SwitchEvent::TargetItem(found));
        assert(events.contains(SwitchEvent::TargetItem(found)));
    }
    if found_with_file(init) {
        let item = choose|item: PrfItem|
            #[trigger] init.contains(SwitchEvent::TargetItem(Ok(item))) && item.file is Some;
        assert(events.contains(SwitchEvent::TargetItem(Ok(item))));
    }
    if path_sought(init) {
        let resolved = choose|resolved: Result<String, String>| #[trigger]
            init.contains(SwitchEvent::TargetPath(resolved));
        assert(events.contains(SwitchEvent::TargetPath(resolved)));
    }
    if path_found(init) {
        let path = choose|path: String| #[trigger]
            init.contains(SwitchEvent::TargetPath(Ok(path)));
        assert(events.contains(SwitchEvent::TargetPath(Ok(path))));
    }
    if was_read(init) {
        let content = choose|content: String| #[trigger]
            init.contains(SwitchEvent::FileRead(FileOutcome::Content(content)));
        assert(events.contains(SwitchEvent::FileRead(FileOutcome::Content(content))));
    }
    match event {
        SwitchEvent::TargetItem(found) => {
            assert(events.contains(SwitchEvent::TargetItem(found)));
            if let Ok(item) = found {
                assert(events.contains(SwitchEvent::TargetItem(Ok(item))));
            }
        },
        SwitchEvent::TargetPath(resolved) => {
            assert(events.contains(SwitchEvent::TargetPath(resolved)));
            if let Ok(path) = resolved {
                assert(events.contains(SwitchEvent::TargetPath(Ok(path))));
            }
        },
        SwitchEvent::FileRead(FileOutcome::Content(content)) => {
            assert(events.contains(SwitchEvent::FileRead(FileOutcome::Content(content))));
        },
        _ => {},
    }
}

/// What must be known of the target by the stage that the switch is in.
spec fn known_at(
    stage: SwitchStage,
    told: bool,
    looked_up: bool,
    found_with_file: bool,
    path_sought: bool,
    path_found: bool,
    passed: (bool, bool, bool),
) -> bool {
    match stage {
        SwitchStage::Locking
        | SwitchStage::LockTimedOut
        | SwitchStage::ForcingLock
        | SwitchStage::Locked
        | SwitchStage::ReadingCurrent => !told && !looked_up && !found_with_file && !path_sought
            && !path_found,
        SwitchStage::FindingItem => !looked_up && !found_with_file && !path_sought && !path_found,
        SwitchStage::ResolvingPath(_) => looked_up && !path_sought && !path_found,
        SwitchStage::CheckingFile(_) => looked_up && path_sought,
        SwitchStage::ReadingFile => looked_up && path_sought && passed.0,
        SwitchStage::CheckingSyntax(_) => looked_up && path_sought && passed.0 && passed.1,
        _ => {
            &&& told ==> looked_up
            &&& found_with_file ==> path_sought
            &&& path_found ==> passed.0 && passed.1 && passed.2
        },
    }
}

/// What is known of the target after these answers fits the stage.
spec fn known<I>(reached: Switch<I>, events: Seq<SwitchEvent>, current: Option<String>) -> bool {
    known_at(
        reached.stage,
        told(events, current),
        looked_up(events),
        found_with_file(events),
        path_sought(events),
        path_found(events),
        (was_there(events), was_read(events), was_valid(events)),
    )
}

/// A switch that ends before it has patched the draft does not patch it any more.
proof fn lemma_no_late_draft<I>(before: Switch<I>, event: SwitchEvent, request: IProfiles<I>)
    requires
        before.well_formed(),
        before.awaits(event),
        crate::switch::step(before, event).0.stage is Finished,
    ensures
        !crate::switch::step(before, event).1.contains(SwitchEffect::PatchDraft(request)),
{
}

/// What is known of the target at each point fits the stage, unless the switch has
/// ended without a draft.
proof fn lemma_known_so_far<I>(
    switch: Switch<I>,
    events: Seq<SwitchEvent>,
    target: String,
    current: Option<String>,
)
    requires
        crate::switch_laws::begun(switch),
        crate::switch_laws::answered(switch, events),
        switch.target == Some(target),
        current is None || current->0@ != target@,
    ensures
        ({
            let (reached, effects) = crate::switch_laws::run(switch, events);
            reached.stage is Finished && !past_the_check(reached, effects) || known(
                reached,
                events,
                current,
            )
        }),
    decreases events.len(),
{
    if events.len() > 0 {
        let init = events.drop_last();
        let event = events.last();
        let (before, done) = crate::switch_laws::run(switch, init);
        let (reached, effects) = crate::switch_laws::run(switch, events);
        let added = crate::switch::step(before, event).1;
        lemma_known_so_far(switch, init, target, current);
        crate::switch_laws::law_effects_of_a_switch(switch, init);
        lemma_one_more_known(events, current);
        assert(reached == crate::switch::step(before, event).0);
        if reached.stage is Finished && crate::switch::before_draft(before.stage)
            && past_the_check(reached, effects) {
            let request = choose|request: IProfiles<I>| #[trigger]
                effects.contains(SwitchEffect::PatchDraft(request));
            assert(effects =~= added);
            lemma_no_late_draft(before, event, request);
        }
    }
}

/// A switch to another profile than the one in use does not go past the check of its
/// target before it has looked the target up. If the target has a file, the switch
/// has asked for its path. If the path is known, the file was there, could be read
/// and is a YAML document.
pub proof fn law_target_is_checked_before_the_draft<I>(
    switch: Switch<I>,
    events: Seq<SwitchEvent>,
    target: String,
    current: Option<String>,
    item: PrfItem,
    path: String,
)
    requires
        crate::switch_laws::begun(switch),
        crate::switch_laws::answered(switch, events),
        past_the_check(
            crate::switch_laws::run(switch, events).0,
            crate::switch_laws::run(switch, events).1,
        ),
        switch.target == Some(target),
        events.contains(SwitchEvent::CurrentProfile(current)),
        current is None || current->0@ != target@,
    ensures
        exists|found: Result<PrfItem, String>| #[trigger]
            events.contains(SwitchEvent::TargetItem(found)),
        events.contains(SwitchEvent::TargetItem(Ok(item))) && item.file is Some ==> exists|
            resolved: Result<String, String>,
        | #[trigger] events.contains(SwitchEvent::TargetPath(resolved)),
        events.contains(SwitchEvent::TargetPath(Ok(path))) ==> {
            &&& events.contains(SwitchEvent::FileExists(true))
            &&& exists|content: String| #[trigger]
                events.contains(SwitchEvent::FileRead(FileOutcome::Content(content)))
            &&& events.contains(SwitchEvent::SyntaxChecked(SyntaxOutcome::Valid))
        },
{
    lemma_known_so_far(switch, events, target, current);
    crate::switch_laws::law_effects_of_a_switch(switch, events);
    assert(told(events, current));
    assert(looked_up(events));
}

/// The path that a switch asks for is that of exactly the file of the profile that
/// was found, whatever else this profile holds; and what is checked for being YAML
/// is exactly what was read.
pub proof fn law_file_of_the_target_is_checked<I>(
    switch: Switch<I>,
    events: Seq<SwitchEvent>,
    at: int,
    item: PrfItem,
    file: String,
    content: String,
)
    requires
        crate::switch_laws::begun(switch),
        crate::switch_laws::answered(switch, events),
        0 <= at < events.len(),
    ensures
        events[at] == SwitchEvent::TargetItem(Ok(item)) && item.file == Some(file)
            ==> crate::switch_laws::run(switch, events.take(at + 1)).0.asks() == SwitchQuery::<
            I,
        >::TargetPath(file),
        events[at] == SwitchEvent::FileRead(FileOutcome::Content(content))
            ==> crate::switch_laws::run(switch, events.take(at + 1)).0.asks() == SwitchQuery::<
            I,
        >::CheckSyntax(content),
{
    lemma_answered_up_to(switch, events, at + 1);
    law_question_after_an_answer(switch, events.take(at + 1));
}

/// A check of a content comes to the content being valid exactly if it parses, and
/// to the error of the parser otherwise.
pub proof fn law_syntax_is_what_the_parser_says(
    content: Seq<char>,
    outcome: SyntaxOutcome,
)
    ensures
        crate::switch::is_syntax_of(content, outcome) ==> (outcome is Valid
            <==> crate::yaml::yaml_parsed(content) is Ok),
        crate::switch::is_syntax_of(content, outcome) && !(outcome is Valid) ==> outcome is Invalid
            && crate::yaml::yaml_parsed(content)->Err_0 == outcome->Invalid_0@,
{
}

/// The core takes a draft exactly if it answers in time that the draft is valid,
/// whatever it says besides. A draft that is not valid is rejected with what the
/// core says of it, and a core that cannot be reached fails with the error.
pub proof fn law_verdict_of_the_core(valid: bool, message: String, error: String)
    ensures
        crate::switch::core_verdict(Some(Ok((valid, message)))) is Accepted <==> valid,
        !valid ==> crate::switch::core_verdict(Some(Ok((valid, message)))) == CoreOutcome::Rejected(
            message,
        ),
        crate::switch::core_verdict(Some(Err(error))) == CoreOutcome::Failed(error),
        crate::switch::core_verdict(None) is TimedOut,
{
}

/// The record of the profile being processed changes only by the two effects on it.
pub proof fn law_record_changes_by_its_effects<I>(
    processing: Option<String>,
    effect: SwitchEffect<I>,
    profile: String,
)
    ensures
        crate::switch::processing_after(processing, SwitchEffect::<I>::MarkProcessing(profile))
            == Some(profile),
        crate::switch::processing_after(processing, SwitchEffect::<I>::ClearProcessing) is None,
        !(effect is MarkProcessing) && !(effect is ClearProcessing)
            ==> crate::switch::processing_after(processing, effect) == processing,
{
}

} // verus!
