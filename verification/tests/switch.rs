//! Courses of a switch of the profile in use.

use profile_commands::notice::Notice;
use profile_commands::profiles::{IProfiles, PrfItem};
use profile_commands::switch::{
    begin_switch, check_syntax, cleanup_processing_state, core_outcome, next_sequence,
    patch_profiles_config, patch_profiles_config_by_profile_index, track_processing, CoreOutcome, FileOutcome, Switch,
    SwitchEffect, SwitchEvent, SwitchQuery, SwitchStage, SyntaxOutcome,
};

fn text(text: &str) -> String {
    text.to_string()
}

fn begin() -> Switch {
    patch_profiles_config_by_profile_index(6, text("new"))
}

fn request() -> IProfiles {
    IProfiles { current: Some(text("new")), items: None }
}

fn target(file: Option<&str>) -> SwitchEvent {
    SwitchEvent::TargetItem(Ok(PrfItem {
        uid: Some(text("new")),
        url: None,
        file: file.map(text),
        option: None,
    }))
}

/// Runs a switch to what the answers lead to, and collects the effects.
fn run(switch: Switch, events: Vec<SwitchEvent>) -> (Switch, Vec<SwitchEffect>) {
    let mut switch = switch;
    let mut done = Vec::new();
    for event in events {
        assert!(switch.accepts(&event));
        let (next, effects) = patch_profiles_config(switch, event);
        switch = next;
        done.extend(effects);
    }
    (switch, done)
}

/// The answers up to the draft, for a target without a file.
fn until_drafted(previous: Option<&str>) -> Vec<SwitchEvent> {
    vec![
        SwitchEvent::LockTried(true),
        SwitchEvent::LatestSequence(7),
        SwitchEvent::CurrentProfile(previous.map(text)),
        target(None),
        SwitchEvent::LatestSequence(7),
    ]
}

fn after_core(previous: Option<&str>, outcome: CoreOutcome) -> Vec<SwitchEvent> {
    let mut events = until_drafted(previous);
    events.push(SwitchEvent::LatestSequence(7));
    events.push(SwitchEvent::CoreUpdated(outcome));
    events
}

fn drafted() -> Vec<SwitchEffect> {
    vec![SwitchEffect::MarkProcessing(text("new")), SwitchEffect::PatchDraft(request())]
}

fn drafted_and(effects: Vec<SwitchEffect>) -> Vec<SwitchEffect> {
    let mut all = drafted();
    all.extend(effects);
    all
}

fn checking_file() -> Vec<SwitchEvent> {
    vec![
        SwitchEvent::LockTried(true),
        SwitchEvent::LatestSequence(7),
        SwitchEvent::CurrentProfile(None),
        target(Some("f.yaml")),
        SwitchEvent::TargetPath(Ok(text("/p/f.yaml"))),
    ]
}

#[test]
fn switch_by_index_starts_with_the_next_number() {
    let switch = begin();
    assert_eq!(
        switch,
        Switch {
            sequence: 7,
            target: Some(text("new")),
            request: Some(request()),
            previous: None,
            stage: SwitchStage::Locking,
        }
    );
    assert_eq!(switch.query(), SwitchQuery::TryLock(100));
}

#[test]
fn successful_switch_asks_in_order_and_applies() {
    let mut switch = begin();
    let mut queries = Vec::new();
    let mut done = Vec::new();
    for event in [
        SwitchEvent::LockTried(false),
        SwitchEvent::LatestSequence(7),
        SwitchEvent::LockTaken,
        SwitchEvent::LatestSequence(7),
        SwitchEvent::CurrentProfile(Some(text("old"))),
        target(Some("f.yaml")),
        SwitchEvent::TargetPath(Ok(text("/p/f.yaml"))),
        SwitchEvent::FileExists(true),
        SwitchEvent::FileRead(FileOutcome::Content(text("a: 1"))),
        SwitchEvent::SyntaxChecked(SyntaxOutcome::Valid),
        SwitchEvent::LatestSequence(7),
        SwitchEvent::LatestSequence(7),
        SwitchEvent::CoreUpdated(CoreOutcome::Accepted),
        SwitchEvent::LatestSequence(7),
    ] {
        queries.push(switch.query());
        let (next, effects) = patch_profiles_config(switch, event);
        switch = next;
        done.extend(effects);
    }
    assert_eq!(
        queries,
        vec![
            SwitchQuery::TryLock(100),
            SwitchQuery::LatestSequence,
            SwitchQuery::Lock,
            SwitchQuery::LatestSequence,
            SwitchQuery::CurrentProfile,
            SwitchQuery::TargetItem(text("new")),
            SwitchQuery::TargetPath(text("f.yaml")),
            SwitchQuery::FileExists,
            SwitchQuery::ReadFile(5000),
            SwitchQuery::CheckSyntax(text("a: 1")),
            SwitchQuery::LatestSequence,
            SwitchQuery::LatestSequence,
            SwitchQuery::UpdateCore(30000),
            SwitchQuery::LatestSequence,
        ]
    );
    assert_eq!(switch.query(), SwitchQuery::Return(Ok(true)));
    assert_eq!(
        done,
        drafted_and(vec![
            SwitchEffect::ApplyDraft,
            SwitchEffect::RefreshClash,
            SwitchEffect::RefreshProxies,
            SwitchEffect::UpdateTrayAndSave,
            SwitchEffect::NotifyProfileChanged(text("new")),
            SwitchEffect::ClearProcessing,
        ])
    );
}

#[test]
fn request_without_a_target_patches_the_list_alone() {
    let request: IProfiles = IProfiles { current: None, items: Some(Vec::new()) };
    let (switch, done) = run(
        begin_switch(0, request),
        vec![
            SwitchEvent::LockTried(true),
            SwitchEvent::LatestSequence(1),
            SwitchEvent::CurrentProfile(Some(text("old"))),
            SwitchEvent::LatestSequence(1),
            SwitchEvent::LatestSequence(1),
            SwitchEvent::CoreUpdated(CoreOutcome::Accepted),
            SwitchEvent::LatestSequence(1),
        ],
    );
    assert_eq!(switch.query(), SwitchQuery::Return(Ok(true)));
    assert_eq!(
        done,
        vec![
            SwitchEffect::PatchDraft(IProfiles { current: None, items: Some(Vec::new()) }),
            SwitchEffect::ApplyDraft,
            SwitchEffect::RefreshClash,
            SwitchEffect::RefreshProxies,
            SwitchEffect::UpdateTrayAndSave,
            SwitchEffect::ClearProcessing,
        ]
    );
}

#[test]
fn target_in_use_is_not_checked_again() {
    let (switch, _) = run(
        begin(),
        vec![
            SwitchEvent::LockTried(true),
            SwitchEvent::LatestSequence(7),
            SwitchEvent::CurrentProfile(Some(text("new"))),
        ],
    );
    assert_eq!(switch.stage, SwitchStage::Validated);
}

#[test]
fn target_whose_file_is_not_known_is_not_checked() {
    let lookups = vec![
        vec![SwitchEvent::TargetItem(Err(text("none")))],
        vec![target(None)],
        vec![target(Some("f")), SwitchEvent::TargetPath(Err(text("no directory")))],
    ];
    for lookup in lookups {
        let mut events = vec![
            SwitchEvent::LockTried(true),
            SwitchEvent::LatestSequence(7),
            SwitchEvent::CurrentProfile(Some(text("old"))),
        ];
        events.extend(lookup);
        let (switch, done) = run(begin(), events);
        assert_eq!(switch.stage, SwitchStage::Validated);
        assert_eq!(done, Vec::new());
    }
}

#[test]
fn newer_request_wins_before_the_draft() {
    let points = vec![
        vec![SwitchEvent::LockTried(false)],
        vec![SwitchEvent::LockTried(true)],
        vec![SwitchEvent::LockTried(false), SwitchEvent::LatestSequence(7), SwitchEvent::LockTaken],
        vec![
            SwitchEvent::LockTried(true),
            SwitchEvent::LatestSequence(7),
            SwitchEvent::CurrentProfile(Some(text("new"))),
        ],
    ];
    for mut events in points {
        events.push(SwitchEvent::LatestSequence(8));
        let (switch, done) = run(begin(), events);
        assert_eq!(switch.query(), SwitchQuery::Return(Ok(false)));
        assert_eq!(done, Vec::new());
    }
}

#[test]
fn newer_request_wins_after_the_draft() {
    let mut before_core = until_drafted(None);
    before_core.push(SwitchEvent::LatestSequence(9));
    let mut after = after_core(None, CoreOutcome::Accepted);
    after.push(SwitchEvent::LatestSequence(9));
    for events in [before_core, after] {
        let (switch, done) = run(begin(), events);
        assert_eq!(switch.query(), SwitchQuery::Return(Ok(false)));
        assert_eq!(done, drafted_and(vec![SwitchEffect::DiscardDraft]));
    }
}

#[test]
fn unfit_files_are_refused_with_a_message() {
    let read = |outcome| vec![SwitchEvent::FileExists(true), SwitchEvent::FileRead(outcome)];
    let checked = |outcome| {
        vec![
            SwitchEvent::FileExists(true),
            SwitchEvent::FileRead(FileOutcome::Content(text("a: ["))),
            SwitchEvent::SyntaxChecked(outcome),
        ]
    };
    let ends = vec![
        (vec![SwitchEvent::FileExists(false)], Notice::FileNotFound(text("/p/f.yaml"))),
        (read(FileOutcome::Failed(text("e"))), Notice::FileRead(text("e"))),
        (read(FileOutcome::TimedOut), Notice::FileReadTimeout),
        (checked(SyntaxOutcome::Invalid(text("e"))), Notice::YamlSyntax(text("e"))),
        (checked(SyntaxOutcome::TaskFailed(text("e"))), Notice::YamlTask(text("e"))),
    ];
    for (answers, notice) in ends {
        let mut events = checking_file();
        events.extend(answers);
        let (switch, done) = run(begin(), events);
        assert_eq!(switch.query(), SwitchQuery::Return(Ok(false)));
        assert_eq!(done, vec![SwitchEffect::Notify(notice)]);
    }
}

#[test]
fn rejected_draft_is_set_back() {
    let (switch, done) =
        run(begin(), after_core(Some("old"), CoreOutcome::Rejected(text("bad"))));
    assert_eq!(done, drafted_and(vec![SwitchEffect::DiscardDraft]));
    assert_eq!(
        switch.query(),
        SwitchQuery::Restore(IProfiles { current: Some(text("old")), items: None })
    );
    let (switch, done) = run(switch, vec![SwitchEvent::Restored(Ok(()))]);
    assert_eq!(switch.query(), SwitchQuery::Return(Ok(false)));
    assert_eq!(
        done,
        vec![
            SwitchEffect::ApplyDraft,
            SwitchEffect::SaveProfiles,
            SwitchEffect::Notify(Notice::Rejected(text("bad"))),
            SwitchEffect::ClearProcessing,
        ]
    );
}

#[test]
fn draft_without_an_answer_is_set_back() {
    let (switch, done) = run(begin(), after_core(Some("old"), CoreOutcome::TimedOut));
    assert_eq!(done, drafted_and(vec![SwitchEffect::DiscardDraft]));
    let (switch, done) = run(switch, vec![SwitchEvent::Restored(Ok(()))]);
    assert_eq!(switch.query(), SwitchQuery::Return(Ok(false)));
    assert_eq!(
        done,
        vec![
            SwitchEffect::ApplyDraft,
            SwitchEffect::Notify(Notice::CoreTimeout),
            SwitchEffect::ClearProcessing,
        ]
    );
}

#[test]
fn failure_to_set_back_is_the_answer() {
    for outcome in [CoreOutcome::TimedOut, CoreOutcome::Rejected(text("bad"))] {
        let mut events = after_core(Some("old"), outcome);
        events.push(SwitchEvent::Restored(Err(text("e"))));
        let (switch, done) = run(begin(), events);
        assert_eq!(switch.query(), SwitchQuery::Return(Err(text("e"))));
        assert_eq!(done, drafted_and(vec![SwitchEffect::DiscardDraft]));
    }
}

#[test]
fn draft_is_dropped_when_there_is_nothing_to_go_back_to() {
    let ends = vec![
        (CoreOutcome::Rejected(text("bad")), Notice::Rejected(text("bad"))),
        (CoreOutcome::TimedOut, Notice::CoreTimeout),
        (CoreOutcome::Failed(text("e")), Notice::BootError(text("e"))),
    ];
    for (outcome, notice) in ends {
        let (switch, done) = run(begin(), after_core(None, outcome));
        assert_eq!(switch.query(), SwitchQuery::Return(Ok(false)));
        assert_eq!(
            done,
            drafted_and(vec![
                SwitchEffect::DiscardDraft,
                SwitchEffect::Notify(notice),
                SwitchEffect::ClearProcessing,
            ])
        );
    }
}

#[test]
fn failure_of_the_core_does_not_set_back() {
    let (switch, done) = run(begin(), after_core(Some("old"), CoreOutcome::Failed(text("e"))));
    assert_eq!(switch.query(), SwitchQuery::Return(Ok(false)));
    assert_eq!(
        done,
        drafted_and(vec![
            SwitchEffect::DiscardDraft,
            SwitchEffect::Notify(Notice::BootError(text("e"))),
            SwitchEffect::ClearProcessing,
        ])
    );
}

#[test]
fn only_the_answer_to_the_question_is_accepted() {
    let switch = begin();
    assert!(switch.accepts(&SwitchEvent::LockTried(false)));
    assert!(!switch.accepts(&SwitchEvent::LockTaken));
    assert!(!switch.accepts(&SwitchEvent::LatestSequence(7)));
    let (switch, _) = run(switch, vec![SwitchEvent::LockTried(true), SwitchEvent::LatestSequence(8)]);
    assert!(!switch.accepts(&SwitchEvent::LockTried(true)));
}

#[test]
fn record_of_the_profile_being_processed() {
    let mut processing = Some(text("other"));
    let untouched: SwitchEffect = SwitchEffect::DiscardDraft;
    track_processing(&mut processing, &untouched);
    assert_eq!(processing, Some(text("other")));
    let mark: SwitchEffect = SwitchEffect::MarkProcessing(text("new"));
    track_processing(&mut processing, &mark);
    assert_eq!(processing, Some(text("new")));
    let clear: SwitchEffect = SwitchEffect::ClearProcessing;
    track_processing(&mut processing, &clear);
    assert_eq!(processing, None);
    processing = Some(text("new"));
    cleanup_processing_state(&mut processing);
    assert_eq!(processing, None);
}

#[test]
fn syntax_of_files() {
    assert_eq!(check_syntax("a: 1"), SyntaxOutcome::Valid);
    assert_eq!(check_syntax(""), SyntaxOutcome::Valid);
    let message = serde_yaml::from_str::<serde_yaml::Value>("a: [").unwrap_err().to_string();
    assert_eq!(check_syntax("a: ["), SyntaxOutcome::Invalid(message));
}

#[test]
fn notices() {
    let notices = vec![
        (Notice::FileNotFound(text("/p")), "config_validate::file_not_found", "/p"),
        (Notice::YamlSyntax(text("e")), "config_validate::yaml_syntax_error", " e"),
        (Notice::YamlTask(text("e")), "config_validate::yaml_parse_error", "YAML解析任务失败: e"),
        (Notice::FileRead(text("e")), "config_validate::file_read_error", "无法读取目标配置文件: e"),
        (Notice::FileReadTimeout, "config_validate::file_read_timeout", "读取配置文件超时(5秒)"),
        (Notice::Rejected(text("e")), "config_validate::error", "e"),
        (Notice::BootError(text("e")), "config_validate::boot_error", "e"),
        (
            Notice::CoreTimeout,
            "config_validate::timeout",
            "配置更新超时(30秒)，可能是配置验证或核心通信阻塞",
        ),
    ];
    for (notice, status, message) in notices {
        assert_eq!(notice.status(), status);
        assert_eq!(notice.message(), message);
    }
}

#[test]
fn answers_of_the_core_to_a_switch() {
    assert_eq!(core_outcome(Some(Ok((true, text("ignored"))))), CoreOutcome::Accepted);
    assert_eq!(core_outcome(Some(Ok((false, text("bad"))))), CoreOutcome::Rejected(text("bad")));
    assert_eq!(core_outcome(Some(Err(text("e")))), CoreOutcome::Failed(text("e")));
    assert_eq!(core_outcome(None), CoreOutcome::TimedOut);
}

#[test]
fn numbers_of_requests() {
    assert_eq!(next_sequence(0), Some(1));
    assert_eq!(next_sequence(u64::MAX - 1), Some(u64::MAX));
    assert_eq!(next_sequence(u64::MAX), None);
}

#[test]
fn of_several_requests_exactly_the_newest_goes_on() {
    let mut counter: u64 = 4;
    let mut switches: Vec<Switch> = Vec::new();
    for uid in ["a", "b", "c"] {
        switches.push(patch_profiles_config_by_profile_index(counter, text(uid)));
        counter = next_sequence(counter).unwrap();
    }
    assert_eq!(counter, 7);
    let numbers: Vec<u64> = switches.iter().map(|switch| switch.sequence).collect();
    assert_eq!(numbers, vec![5, 6, 7]);
    for switch in switches {
        let newest = switch.sequence == counter;
        let events = vec![SwitchEvent::LockTried(true), SwitchEvent::LatestSequence(counter)];
        let (reached, _) = run(switch, events);
        let expected =
            if newest { SwitchStage::ReadingCurrent } else { SwitchStage::Finished(Ok(false)) };
        assert_eq!(reached.stage, expected);
    }
}
