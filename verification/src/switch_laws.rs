//! What holds of every course that a switch can take.

use crate::notice::Notice;
use crate::profiles::IProfiles;
use crate::switch::{
    CoreOutcome, Switch, SwitchEffect, SwitchEvent, SwitchQuery, SwitchStage,
};
use vstd::prelude::*;

verus! {

/// The switch after these answers, and all effects on the way.
pub open spec fn run<I>(
    switch: Switch<I>,
    events: Seq<SwitchEvent>,
) -> (Switch<I>, Seq<SwitchEffect<I>>)
    decreases events.len(),
{
    if events.len() == 0 {
        (switch, seq![])
    } else {
        let (reached, done) = run(switch, events.drop_last());
        let (next, effects) = crate::switch::step(reached, events.last());
        (next, done + effects)
    }
}

/// Whether each of `events` answers what the switch asks at that point.
pub open spec fn answered<I>(switch: Switch<I>, events: Seq<SwitchEvent>) -> bool
    decreases events.len(),
{
    events.len() == 0 || {
        &&& answered(switch, events.drop_last())
        &&& run(switch, events.drop_last()).0.awaits(events.last())
    }
}

/// Whether the switch has just begun.
pub open spec fn begun<I>(switch: Switch<I>) -> bool {
    &&& switch.well_formed()
    &&& switch.stage is Locking
}

/// An upper bound on the answers that a switch still takes.
pub open spec fn answers_left(stage: SwitchStage) -> nat {
    match stage {
        SwitchStage::Locking => 14,
        SwitchStage::LockTimedOut => 13,
        SwitchStage::ForcingLock => 12,
        SwitchStage::Locked => 11,
        SwitchStage::ReadingCurrent => 10,
        SwitchStage::FindingItem => 9,
        SwitchStage::ResolvingPath(_) => 8,
        SwitchStage::CheckingFile(_) => 7,
        SwitchStage::ReadingFile => 6,
        SwitchStage::CheckingSyntax(_) => 5,
        SwitchStage::Validated => 4,
        SwitchStage::Drafted => 3,
        SwitchStage::UpdatingCore => 2,
        SwitchStage::CoreAccepted => 1,
        SwitchStage::RestoringRejected(_) => 1,
        SwitchStage::RestoringTimedOut => 1,
        SwitchStage::Finished(_) => 0,
    }
}

/// The record of the profile being processed after these effects.
pub open spec fn processing_after_all<I>(
    processing: Option<String>,
    effects: Seq<SwitchEffect<I>>,
) -> Option<String>
    decreases effects.len(),
{
    if effects.len() == 0 {
        processing
    } else {
        crate::switch::processing_after(
            processing_after_all(processing, effects.drop_last()),
            effects.last(),
        )
    }
}

/// Whether these effects leave a draft that was patched and neither applied nor
/// dropped.
pub open spec fn draft_pending<I>(effects: Seq<SwitchEffect<I>>) -> bool
    decreases effects.len(),
{
    effects.len() > 0 && match effects.last() {
        SwitchEffect::PatchDraft(_) => true,
        SwitchEffect::ApplyDraft | SwitchEffect::DiscardDraft => false,
        _ => draft_pending(effects.drop_last()),
    }
}

/// What a switch that ended without the target in use has done after patching the
/// draft with `request`.
pub open spec fn set_back<I>(switch: Switch<I>, effects: Seq<SwitchEffect<I>>) -> bool {
    let drafted = crate::switch::draft_effects(switch.target, switch.request->0);
    let dropped = drafted.push(SwitchEffect::DiscardDraft);
    ||| effects == dropped
    ||| exists|notice: Notice|
        effects == drafted + #[trigger] crate::switch::failure_effects(notice)
    ||| exists|message: String|
        effects == dropped + #[trigger] crate::switch::rejection_effects(message)
    ||| effects == dropped + crate::switch::timeout_effects()
}

/// All that a switch which began as `switch` can have done by the time it has
/// become `reached`.
pub open spec fn done_so_far<I>(
    switch: Switch<I>,
    reached: Switch<I>,
    effects: Seq<SwitchEffect<I>>,
) -> bool {
    let drafted = crate::switch::draft_effects(switch.target, switch.request->0);
    match reached.stage {
        SwitchStage::Drafted | SwitchStage::UpdatingCore | SwitchStage::CoreAccepted => effects
            == drafted,
        SwitchStage::RestoringRejected(_) | SwitchStage::RestoringTimedOut => effects
            == drafted.push(SwitchEffect::DiscardDraft),
        SwitchStage::Finished(Ok(true)) => effects == drafted + crate::switch::success_effects(
            switch.target,
        ),
        SwitchStage::Finished(Ok(false)) => {
            ||| effects == Seq::<SwitchEffect<I>>::empty()
            ||| exists|notice: Notice|
                effects == #[trigger] crate::switch::refusal_effects::<I>(notice)
            ||| set_back(switch, effects)
        },
        SwitchStage::Finished(Err(_)) => effects == drafted.push(SwitchEffect::DiscardDraft),
        _ => effects == Seq::<SwitchEffect<I>>::empty(),
    }
}

/// One answer keeps the invariant, the number, the target and, until the draft is
/// patched, the request.
pub proof fn lemma_step_keeps<I>(switch: Switch<I>, event: SwitchEvent)
    requires
        switch.well_formed(),
        switch.awaits(event),
    ensures
        crate::switch::step(switch, event).0.well_formed(),
        crate::switch::step(switch, event).0.sequence == switch.sequence,
        crate::switch::step(switch, event).0.target == switch.target,
        crate::switch::before_draft(crate::switch::step(switch, event).0.stage)
            ==> crate::switch::step(switch, event).0.request == switch.request,
        answers_left(crate::switch::step(switch, event).0.stage) < answers_left(switch.stage),
{
}

/// What a switch has done at each point of its course.
pub proof fn law_effects_of_a_switch<I>(switch: Switch<I>, events: Seq<SwitchEvent>)
    requires
        begun(switch),
        answered(switch, events),
    ensures
        run(switch, events).0.well_formed(),
        run(switch, events).0.sequence == switch.sequence,
        run(switch, events).0.target == switch.target,
        crate::switch::before_draft(run(switch, events).0.stage) ==> run(switch, events).0.request
            == switch.request,
        done_so_far(switch, run(switch, events).0, run(switch, events).1),
    decreases events.len(),
{
    if events.len() > 0 {
        let init = events.drop_last();
        law_effects_of_a_switch(switch, init);
        let (reached, done) = run(switch, init);
        let event = events.last();
        lemma_step_keeps(reached, event);
        let (next, effects) = crate::switch::step(reached, event);
        assert(Seq::<SwitchEffect<I>>::empty() + effects =~= effects);
        assert(done + Seq::<SwitchEffect<I>>::empty() =~= done);
        assert(done + seq![SwitchEffect::DiscardDraft] =~= done.push(SwitchEffect::DiscardDraft));
    }
}

/// A switch comes to its end: after each answer fewer are left to take, so that
/// none takes more than fourteen.
pub proof fn law_switch_ends<I>(switch: Switch<I>, events: Seq<SwitchEvent>)
    requires
        begun(switch),
        answered(switch, events),
    ensures
        events.len() + answers_left(run(switch, events).0.stage) <= 14,
        events.len() <= 14,
    decreases events.len(),
{
    if events.len() > 0 {
        let init = events.drop_last();
        law_switch_ends(switch, init);
        law_effects_of_a_switch(switch, init);
        lemma_step_keeps(run(switch, init).0, events.last());
    }
}

/// Whether the lock was got on the way.
pub open spec fn lock_taken(events: Seq<SwitchEvent>) -> bool {
    events.contains(SwitchEvent::LockTaken) || events.contains(SwitchEvent::LockTried(true))
}

/// Whether a newer request than `sequence` was seen on the way.
pub open spec fn newer_seen(events: Seq<SwitchEvent>, sequence: u64) -> bool {
    exists|latest: u64|
        sequence < latest && #[trigger] events.contains(SwitchEvent::LatestSequence(latest))
}

/// Whether the profile in use has been asked for.
pub open spec fn current_known(stage: SwitchStage) -> bool {
    match stage {
        SwitchStage::Locking
        | SwitchStage::LockTimedOut
        | SwitchStage::ForcingLock
        | SwitchStage::Locked
        | SwitchStage::ReadingCurrent
        | SwitchStage::Finished(_) => false,
        _ => true,
    }
}

/// What the answers so far must have been, by the stage that the switch is in.
pub proof fn lemma_answers_so_far<I>(switch: Switch<I>, events: Seq<SwitchEvent>)
    requires
        begun(switch),
        answered(switch, events),
    ensures
        ({
            let (reached, effects) = run(switch, events);
            &&& newer_seen(events, switch.sequence) ==> reached.stage == SwitchStage::Finished(
                Ok(false),
            )
            &&& reached.stage is CoreAccepted || reached.stage == SwitchStage::Finished(Ok(true))
                ==> events.contains(SwitchEvent::CoreUpdated(CoreOutcome::Accepted))
            &&& reached.stage is Locking || reached.stage is LockTimedOut
                || reached.stage is ForcingLock || (reached.stage is Finished && effects.len() == 0)
                || lock_taken(events)
            &&& current_known(reached.stage) ==> events.contains(
                SwitchEvent::CurrentProfile(reached.previous),
            )
        }),
    decreases events.len(),
{
    if events.len() > 0 {
        let init = events.drop_last();
        let event = events.last();
        lemma_answers_so_far(switch, init);
        law_effects_of_a_switch(switch, init);
        law_effects_of_a_switch(switch, events);
        let (reached, done) = run(switch, init);
        let (next, effects) = crate::switch::step(reached, event);
        assert(events =~= init.push(event));
        assert forall|other: SwitchEvent| events.contains(other) == (init.contains(other) || other
            == event) by {
            if init.contains(other) {
                let i = init.index_of(other);
                assert(events[i] == other);
            }
            assert(events[events.len() - 1] == event);
            if events.contains(other) && other != event {
                let i = events.index_of(other);
                assert(init[i] == other);
            }
        }
        if newer_seen(events, switch.sequence) {
            let latest = choose|latest: u64|
                switch.sequence < latest && #[trigger] events.contains(
                    SwitchEvent::LatestSequence(latest),
                );
            if init.contains(SwitchEvent::LatestSequence(latest)) {
                assert(newer_seen(init, switch.sequence));
            }
        }
    }
}

/// A switch that ends with the target in use went all the way: it held the lock,
/// the core accepted the draft, no newer request was seen, and what it did is to
/// patch the draft with the request and to put it in force.
pub proof fn law_success_means_applied<I>(switch: Switch<I>, events: Seq<SwitchEvent>)
    requires
        begun(switch),
        answered(switch, events),
        run(switch, events).0.stage == SwitchStage::Finished(Ok(true)),
    ensures
        lock_taken(events),
        events.contains(SwitchEvent::CoreUpdated(CoreOutcome::Accepted)),
        !newer_seen(events, switch.sequence),
        run(switch, events).1 == crate::switch::draft_effects(switch.target, switch.request->0)
            + crate::switch::success_effects(switch.target),
{
    law_effects_of_a_switch(switch, events);
    lemma_answers_so_far(switch, events);
}

/// A switch that sees a newer request ends there and then, without the target in
/// use. It has put nothing in force: it has done nothing at all, or has patched
/// the draft and dropped it.
pub proof fn law_newer_request_wins<I>(switch: Switch<I>, events: Seq<SwitchEvent>, latest: u64)
    requires
        begun(switch),
        answered(switch, events),
        crate::switch::at_checkpoint(run(switch, events).0.stage),
        switch.sequence < latest,
    ensures
        ({
            let (ended, effects) = run(switch, events.push(SwitchEvent::LatestSequence(latest)));
            &&& answered(switch, events.push(SwitchEvent::LatestSequence(latest)))
            &&& ended.stage == SwitchStage::Finished(Ok(false))
            &&& if crate::switch::before_draft(run(switch, events).0.stage) {
                effects == Seq::<SwitchEffect<I>>::empty()
            } else {
                effects == crate::switch::draft_effects(switch.target, switch.request->0).push(
                    SwitchEffect::DiscardDraft,
                )
            }
        }),
{
    law_effects_of_a_switch(switch, events);
    let all = events.push(SwitchEvent::LatestSequence(latest));
    assert(all.drop_last() =~= events);
}

/// Nothing is done before the lock is held.
pub proof fn law_effects_only_under_lock<I>(switch: Switch<I>, events: Seq<SwitchEvent>)
    requires
        begun(switch),
        answered(switch, events),
        run(switch, events).1.len() > 0,
    ensures
        lock_taken(events),
{
    law_effects_of_a_switch(switch, events);
    lemma_answers_so_far(switch, events);
}

/// Whether an answer says that the file of the target cannot be used.
pub open spec fn says_unfit(event: SwitchEvent) -> bool {
    match event {
        SwitchEvent::FileExists(exists) => !exists,
        SwitchEvent::FileRead(outcome) => !(outcome is Content),
        SwitchEvent::SyntaxChecked(outcome) => !(outcome is Valid),
        _ => false,
    }
}

/// A target whose file is missing, cannot be read or is no YAML document ends the
/// switch with a message; the draft is not touched.
pub proof fn law_unfit_file_is_refused<I>(
    switch: Switch<I>,
    events: Seq<SwitchEvent>,
    event: SwitchEvent,
)
    requires
        begun(switch),
        answered(switch, events.push(event)),
        says_unfit(event),
    ensures
        run(switch, events.push(event)).0.stage == SwitchStage::Finished(Ok(false)),
        exists|notice: Notice|
            run(switch, events.push(event)).1
                == #[trigger] crate::switch::refusal_effects::<I>(notice),
{
    let all = events.push(event);
    assert(all.drop_last() =~= events);
    law_effects_of_a_switch(switch, events);
    let (reached, done) = run(switch, events);
    let (next, effects) = crate::switch::step(reached, event);
    assert(done =~= Seq::<SwitchEffect<I>>::empty());
    assert(done + effects =~= effects);
}

/// Whether an answer lets a switch with this number go on.
pub open spec fn is_favourable(event: SwitchEvent, sequence: u64) -> bool {
    match event {
        SwitchEvent::LatestSequence(latest) => latest <= sequence,
        SwitchEvent::CoreUpdated(outcome) => outcome is Accepted,
        _ => !says_unfit(event),
    }
}

/// A switch that no newer request overtakes, whose target has no file that is
/// unfit, and whose draft the core accepts, goes on until the target is in use.
pub proof fn law_unhindered_switch_succeeds<I>(switch: Switch<I>, events: Seq<SwitchEvent>)
    requires
        begun(switch),
        answered(switch, events),
        forall|i: int|
            0 <= i < events.len() ==> is_favourable(#[trigger] events[i], switch.sequence),
    ensures
        ({
            let reached = run(switch, events).0;
            &&& reached.stage is Finished ==> reached.stage == SwitchStage::Finished(Ok(true))
            &&& !(reached.stage is RestoringRejected)
            &&& !(reached.stage is RestoringTimedOut)
        }),
    decreases events.len(),
{
    if events.len() > 0 {
        let init = events.drop_last();
        assert forall|i: int| 0 <= i < init.len() implies is_favourable(
            #[trigger] init[i],
            switch.sequence,
        ) by {
            assert(init[i] == events[i]);
        }
        law_unhindered_switch_succeeds(switch, init);
        law_effects_of_a_switch(switch, init);
        assert(is_favourable(events[events.len() - 1], switch.sequence));
    }
}

/// A draft that the core refuses or does not answer to is dropped, and where a
/// profile was in use before, the draft is to be patched with that one and with
/// nothing else.
pub proof fn law_refused_draft_is_set_back<I>(
    switch: Switch<I>,
    events: Seq<SwitchEvent>,
    outcome: CoreOutcome,
)
    requires
        begun(switch),
        answered(switch, events.push(SwitchEvent::CoreUpdated(outcome))),
        outcome is Rejected || outcome is TimedOut,
    ensures
        ({
            let before = run(switch, events).0;
            let (reached, effects) = run(switch, events.push(SwitchEvent::CoreUpdated(outcome)));
            &&& events.contains(SwitchEvent::CurrentProfile(before.previous))
            &&& crate::switch::draft_effects(switch.target, switch.request->0).push(
                SwitchEffect::DiscardDraft,
            ).is_prefix_of(effects)
            &&& before.previous is Some ==> reached.asks() == SwitchQuery::Restore(
                IProfiles::<I> { current: before.previous, items: None },
            )
            &&& before.previous is None ==> reached.stage == SwitchStage::Finished(Ok(false))
        }),
{
    let all = events.push(SwitchEvent::CoreUpdated(outcome));
    assert(all.drop_last() =~= events);
    law_effects_of_a_switch(switch, events);
    law_effects_of_a_switch(switch, all);
    lemma_answers_so_far(switch, events);
}

/// A draft is settled once it has been applied or dropped and is not patched after
/// that.
proof fn lemma_draft_settled<I>(effects: Seq<SwitchEffect<I>>, at: int)
    requires
        0 <= at < effects.len(),
        effects[at] is ApplyDraft || effects[at] is DiscardDraft,
        forall|i: int| at < i < effects.len() ==> !(#[trigger] effects[i] is PatchDraft),
    ensures
        !draft_pending(effects),
    decreases effects.len(),
{
    if at < effects.len() - 1 {
        let init = effects.drop_last();
        assert(init[at] == effects[at]);
        assert forall|i: int| at < i < init.len() implies !(#[trigger] init[i] is PatchDraft) by {
            assert(init[i] == effects[i]);
        }
        lemma_draft_settled(init, at);
    }
}

/// A switch that has come to its end leaves no draft of the request behind: what
/// it patched with the request it has applied or dropped.
pub proof fn law_no_draft_left_behind<I>(switch: Switch<I>, events: Seq<SwitchEvent>)
    requires
        begun(switch),
        answered(switch, events),
        run(switch, events).0.stage is Finished,
    ensures
        !draft_pending(run(switch, events).1),
{
    law_effects_of_a_switch(switch, events);
    let effects = run(switch, events).1;
    let drafted = crate::switch::draft_effects(switch.target, switch.request->0);
    let at = drafted.len() as int;
    if effects.len() == 0 {
    } else if effects.len() == 1 && effects[0] is Notify {
        reveal_with_fuel(draft_pending, 2);
    } else if effects == drafted.push(SwitchEffect::DiscardDraft) {
        lemma_draft_settled(effects, at);
    } else if run(switch, events).0.stage == SwitchStage::Finished(Ok(true)) {
        lemma_draft_settled(effects, at);
    } else if exists|notice: Notice|
        effects == drafted + #[trigger] crate::switch::failure_effects(notice) {
        lemma_draft_settled(effects, at);
    } else {
        lemma_draft_settled(effects, at + 1);
    }
}

/// The record of the profile being processed once the draft is patched.
pub open spec fn marked<I>(switch: Switch<I>, processing: Option<String>) -> Option<String> {
    match switch.target {
        Some(profile) => Some(profile),
        None => processing,
    }
}

/// The record of the profile being processed names the target from the time the
/// draft is patched. It is cleared by a switch that succeeds, and by one that ends
/// on the answer of the core or on going back to the previous profile. A switch
/// that is overtaken by a newer request later than that leaves it to the newer
/// one, and one that ends earlier does not touch it.
pub proof fn law_processing_record<I>(
    switch: Switch<I>,
    events: Seq<SwitchEvent>,
    processing: Option<String>,
)
    requires
        begun(switch),
        answered(switch, events),
        events.len() > 0,
    ensures
        ({
            let before = run(switch, events.drop_last()).0;
            let (reached, effects) = run(switch, events);
            processing_after_all(processing, effects) == match reached.stage {
                SwitchStage::Finished(Ok(done)) => {
                    if crate::switch::before_draft(before.stage) {
                        processing
                    } else if done || !(events.last() is LatestSequence) {
                        None
                    } else {
                        marked(switch, processing)
                    }
                },
                stage => {
                    if crate::switch::before_draft(stage) {
                        processing
                    } else {
                        marked(switch, processing)
                    }
                },
            }
        }),
{
    law_effects_of_a_switch(switch, events);
    law_effects_of_a_switch(switch, events.drop_last());
    reveal_with_fuel(processing_after_all, 5);
    let drafted = crate::switch::draft_effects(switch.target, switch.request->0);
    assert(drafted.drop_last() =~= crate::switch::mark_effects::<I>(switch.target));
    assert(crate::switch::mark_effects::<I>(switch.target).len() > 0
        ==> crate::switch::mark_effects::<I>(switch.target).drop_last() =~= seq![]);
    assert(drafted.push(SwitchEffect::DiscardDraft).drop_last() =~= drafted);
}

/// Requests that follow different ones have different numbers, and a later one has
/// the greater number.
pub proof fn law_later_request_has_the_greater_number<I>(
    earlier: u64,
    later: u64,
    first: IProfiles<I>,
    second: IProfiles<I>,
)
    requires
        earlier < later < u64::MAX,
    ensures
        crate::switch::new_switch(earlier, first).sequence < crate::switch::new_switch(
            later,
            second,
        ).sequence,
{
}

/// A switch goes on from every checkpoint at which the newest number is its own.
pub proof fn law_newest_request_goes_on<I>(switch: Switch<I>, events: Seq<SwitchEvent>)
    requires
        begun(switch),
        answered(switch, events),
        crate::switch::at_checkpoint(run(switch, events).0.stage),
    ensures
        ({
            let all = events.push(SwitchEvent::LatestSequence(switch.sequence));
            let reached = run(switch, all).0;
            &&& answered(switch, all)
            &&& reached.stage is Finished ==> reached.stage == SwitchStage::Finished(Ok(true))
        }),
{
    law_effects_of_a_switch(switch, events);
    let all = events.push(SwitchEvent::LatestSequence(switch.sequence));
    assert(all.drop_last() =~= events);
}

/// All requests of a client: the number of the newest one, and the switch of each,
/// in the order in which they began.
pub struct Requests<I> {
    pub counter: u64,
    pub switches: Seq<Switch<I>>,
}

/// What can happen to the requests of a client.
pub enum RequestMove<I> {
    /// A request for this comes in.
    Begin(IProfiles<I>),
    /// The switch at this place gets this answer.
    Answer(int, SwitchEvent),
}

/// Whether a move can happen: a request takes the next number, while there is one;
/// an answer is to what its switch asks, and one that tells the newest number tells
/// the counter.
pub open spec fn can_happen<I>(requests: Requests<I>, change: RequestMove<I>) -> bool {
    match change {
        RequestMove::Begin(_) => requests.counter < u64::MAX,
        RequestMove::Answer(at, event) => {
            &&& 0 <= at < requests.switches.len()
            &&& requests.switches[at].awaits(event)
            &&& event matches SwitchEvent::LatestSequence(latest) ==> latest == requests.counter
        },
    }
}

/// The requests after a move.
pub open spec fn after_move<I>(requests: Requests<I>, change: RequestMove<I>) -> Requests<I> {
    match change {
        RequestMove::Begin(profiles) => {
            let switch = crate::switch::new_switch(requests.counter, profiles);
            Requests { counter: switch.sequence, switches: requests.switches.push(switch) }
        },
        RequestMove::Answer(at, event) => Requests {
            switches: requests.switches.update(
                at,
                crate::switch::step(requests.switches[at], event).0,
            ),
            ..requests
        },
    }
}

/// The requests after all these moves.
pub open spec fn after_moves<I>(requests: Requests<I>, changes: Seq<RequestMove<I>>) -> Requests<I>
    decreases changes.len(),
{
    if changes.len() == 0 {
        requests
    } else {
        after_move(after_moves(requests, changes.drop_last()), changes.last())
    }
}

/// Whether all these moves can happen, one after the other.
pub open spec fn can_all_happen<I>(requests: Requests<I>, changes: Seq<RequestMove<I>>) -> bool
    decreases changes.len(),
{
    changes.len() == 0 || {
        &&& can_all_happen(requests, changes.drop_last())
        &&& can_happen(after_moves(requests, changes.drop_last()), changes.last())
    }
}

/// How many of these moves are requests that come in.
pub open spec fn requests_in<I>(changes: Seq<RequestMove<I>>) -> nat
    decreases changes.len(),
{
    if changes.len() == 0 {
        0
    } else if changes.last() is Begin {
        requests_in(changes.drop_last()) + 1
    } else {
        requests_in(changes.drop_last())
    }
}

/// The requests of a client before the first, with a counter that stands at
/// `counter`.
pub open spec fn no_requests<I>(counter: u64) -> Requests<I> {
    Requests { counter, switches: Seq::empty() }
}

/// Requests are numbered without a gap in the order in which they begin, however
/// their switches take turns and whatever these come to: after `n` requests the
/// counter has risen by `n`, and the requests have the `n` numbers that follow the
/// one it stood at.
pub proof fn law_requests_are_numbered<I>(counter: u64, changes: Seq<RequestMove<I>>)
    requires
        can_all_happen(no_requests(counter), changes),
    ensures
        ({
            let requests = after_moves(no_requests(counter), changes);
            &&& requests.counter == counter + requests_in(changes)
            &&& requests.switches.len() == requests_in(changes)
            &&& forall|i: int|
                0 <= i < requests.switches.len() ==> {
                    &&& (#[trigger] requests.switches[i]).sequence == counter + 1 + i
                    &&& requests.switches[i].well_formed()
                }
        }),
    decreases changes.len(),
{
    if changes.len() > 0 {
        let init = changes.drop_last();
        law_requests_are_numbered(counter, init);
        let before = after_moves(no_requests(counter), init);
        if let RequestMove::Answer(at, event) = changes.last() {
            assert(before.switches[at].well_formed());
            lemma_step_keeps(before.switches[at], event);
        }
    }
}

/// Of all requests exactly the newest goes on from a checkpoint: a request that no
/// later one follows is never overtaken, and every other ends there without its
/// target in use.
pub proof fn law_exactly_the_newest_goes_on<I>(
    counter: u64,
    changes: Seq<RequestMove<I>>,
    at: int,
)
    requires
        can_all_happen(no_requests(counter), changes),
        0 <= at < requests_in(changes),
        crate::switch::at_checkpoint(
            after_moves(no_requests(counter), changes).switches[at].stage,
        ),
    ensures
        ({
            let requests = after_moves(no_requests(counter), changes);
            let answer = RequestMove::Answer(at, SwitchEvent::LatestSequence(requests.counter));
            let reached = after_move(requests, answer).switches[at];
            &&& can_happen(requests, answer)
            &&& reached.stage == SwitchStage::Finished(Ok(false)) <==> at < requests_in(changes) - 1
        }),
{
    law_requests_are_numbered(counter, changes);
    let requests = after_moves(no_requests(counter), changes);
    assert(requests.switches[at].sequence == counter + 1 + at);
}

} // verus!
