//! The shorter commands and the profile list.

use profile_commands::commands::{
    after_core_update, after_timer_refresh, delete_profile, enhance_profiles, get_profiles,
    import_profile, patch_profile, update_profiles_on_startup, view_profile, CommandEffect,
    CommandStep, ImportAction, LoadOutcome, ProfilesSource, ProfilesStep, ViewError, ViewEvent,
    ViewStage,
};
use profile_commands::profiles::{
    find_uid_by_url, profiles_to_update, update_interval_changed, IProfiles, PrfItem, PrfOption,
};
use profile_commands::text::{same_text, text_order, TextOrder};

fn item(uid: Option<&str>, url: Option<&str>) -> PrfItem {
    PrfItem {
        uid: uid.map(|uid| uid.to_string()),
        url: url.map(|url| url.to_string()),
        file: None,
        option: None,
    }
}

fn asking(uid: Option<&str>, always: Option<bool>) -> PrfItem {
    let mut item = item(uid, None);
    item.option = Some(PrfOption { update_interval: None, update_always: always });
    item
}

fn every(minutes: Option<u64>) -> PrfItem {
    let mut item = item(Some("p"), None);
    item.option = Some(PrfOption { update_interval: minutes, update_always: None });
    item
}

fn list(items: Vec<PrfItem>) -> IProfiles {
    IProfiles { current: None, items: Some(items) }
}

fn oops() -> String {
    "oops".to_string()
}

#[test]
fn newest_readable_list_is_returned() {
    let latest: IProfiles = IProfiles { current: Some("a".to_string()), items: None };
    let step = get_profiles(ProfilesSource::Latest, LoadOutcome::Loaded(latest));
    assert_eq!(
        step,
        ProfilesStep::Return(IProfiles { current: Some("a".to_string()), items: None })
    );
    let timed_out: LoadOutcome = LoadOutcome::TimedOut;
    assert_eq!(
        get_profiles(ProfilesSource::Latest, timed_out),
        ProfilesStep::Try(ProfilesSource::Data)
    );
    let failed: LoadOutcome = LoadOutcome::TaskFailed(oops());
    assert_eq!(get_profiles(ProfilesSource::Data, failed), ProfilesStep::Try(ProfilesSource::Fresh));
    let fresh = list(vec![item(Some("b"), None)]);
    assert_eq!(
        get_profiles(ProfilesSource::Fresh, LoadOutcome::Loaded(fresh)),
        ProfilesStep::Return(list(vec![item(Some("b"), None)]))
    );
}

#[test]
fn blank_list_is_returned_when_nothing_can_be_read() {
    let failed: LoadOutcome = LoadOutcome::TaskFailed(oops());
    assert_eq!(
        get_profiles(ProfilesSource::Fresh, failed),
        ProfilesStep::Return(IProfiles { current: None, items: Some(Vec::new()) })
    );
}

#[test]
fn limits_of_the_sources() {
    assert_eq!(ProfilesSource::Latest.timeout_ms(), Some(500));
    assert_eq!(ProfilesSource::Data.timeout_ms(), Some(2000));
    assert_eq!(ProfilesSource::Fresh.timeout_ms(), None);
}

#[test]
fn enhancing_reloads_only_after_success() {
    assert_eq!(enhance_profiles(Ok(())), (Ok(()), vec![CommandEffect::RefreshClash]));
    assert_eq!(enhance_profiles(Err(oops())), (Err(oops()), Vec::new()));
}

#[test]
fn known_address_is_refreshed() {
    let profiles = list(vec![
        item(Some("a"), None),
        item(Some("b"), Some("https://x")),
        item(Some("c"), Some("https://x")),
    ]);
    assert_eq!(import_profile(&profiles, "https://x"), ImportAction::Update("b".to_string()));
    assert_eq!(import_profile(&profiles, "https://y"), ImportAction::Create);
    assert_eq!(find_uid_by_url(&profiles, "https://x"), Some("b".to_string()));
}

#[test]
fn first_profile_from_an_address_decides_though_it_has_no_identifier() {
    let profiles = list(vec![item(None, Some("https://x")), item(Some("c"), Some("https://x"))]);
    assert_eq!(import_profile(&profiles, "https://x"), ImportAction::Create);
    let nothing: IProfiles = IProfiles { current: None, items: None };
    assert_eq!(import_profile(&nothing, "https://x"), ImportAction::Create);
}

#[test]
fn deleting_a_profile() {
    assert_eq!(
        delete_profile(Ok(true)),
        (CommandStep::UpdateCore, vec![CommandEffect::CleanUpFiles])
    );
    assert_eq!(
        delete_profile(Ok(false)),
        (CommandStep::Return(Ok(())), vec![CommandEffect::CleanUpFiles])
    );
    assert_eq!(delete_profile(Err(oops())), (CommandStep::Return(Err(oops())), Vec::new()));
}

#[test]
fn answer_of_the_core() {
    assert_eq!(
        after_core_update(Ok((true, String::new()))),
        (Ok(()), vec![CommandEffect::RefreshClash])
    );
    assert_eq!(
        after_core_update(Ok((false, oops()))),
        (Ok(()), vec![CommandEffect::RefreshClash])
    );
    assert_eq!(after_core_update(Err(oops())), (Err(oops()), Vec::new()));
}

#[test]
fn profiles_that_ask_are_refreshed_at_start() {
    let profiles = list(vec![
        asking(Some("a"), Some(true)),
        asking(Some("b"), Some(false)),
        asking(Some("c"), None),
        item(Some("d"), None),
        asking(None, Some(true)),
        asking(Some("e"), Some(true)),
    ]);
    assert_eq!(profiles_to_update(&profiles), vec!["a".to_string(), "e".to_string()]);
    let nothing: IProfiles = IProfiles { current: None, items: None };
    assert_eq!(profiles_to_update(&nothing), Vec::<String>::new());
}

#[test]
fn core_is_updated_at_start_if_one_refresh_succeeded() {
    assert_eq!(
        update_profiles_on_startup(&vec![Err(oops()), Ok(()), Err(oops())]),
        CommandStep::UpdateCore
    );
    assert_eq!(
        update_profiles_on_startup(&vec![Err(oops()), Err(oops())]),
        CommandStep::Return(Ok(()))
    );
    assert_eq!(update_profiles_on_startup(&Vec::new()), CommandStep::Return(Ok(())));
}

#[test]
fn changes_of_the_refresh_interval() {
    let known = Some(every(Some(10)));
    assert!(!update_interval_changed(&known, &every(Some(10))));
    assert!(update_interval_changed(&known, &every(Some(11))));
    assert!(update_interval_changed(&known, &every(None)));
    assert!(update_interval_changed(&known, &item(Some("p"), None)));
    assert!(!update_interval_changed(&Some(item(None, None)), &every(None)));
    assert!(update_interval_changed(&Some(item(None, None)), &every(Some(1))));
    assert!(!update_interval_changed(&None, &every(Some(1))));
}

#[test]
fn replacing_a_profile_refreshes_the_timer_if_needed() {
    let known = Some(every(Some(10)));
    assert_eq!(
        patch_profile("p".to_string(), &known, &every(Some(11)), Ok(())),
        (Ok(()), vec![CommandEffect::RefreshTimer("p".to_string())])
    );
    assert_eq!(
        patch_profile("p".to_string(), &known, &every(Some(10)), Ok(())),
        (Ok(()), Vec::new())
    );
    assert_eq!(
        patch_profile("p".to_string(), &known, &every(Some(11)), Err(oops())),
        (Err(oops()), Vec::new())
    );
    assert_eq!(
        after_timer_refresh("p".to_string(), Ok(())),
        vec![CommandEffect::NotifyTimerUpdated("p".to_string())]
    );
    assert_eq!(after_timer_refresh("p".to_string(), Err(oops())), Vec::new());
}

fn with_file(file: Option<&str>) -> PrfItem {
    let mut item = item(Some("p"), None);
    item.file = file.map(|file| file.to_string());
    item
}

#[test]
fn present_file_is_opened() {
    let stage = view_profile(ViewStage::FindingItem, ViewEvent::Item(Ok(with_file(Some("f")))));
    assert_eq!(stage, ViewStage::ResolvingPath("f".to_string()));
    let stage = view_profile(stage, ViewEvent::Path(Ok("/d/f".to_string())));
    assert_eq!(stage, ViewStage::CheckingFile("/d/f".to_string()));
    let stage = view_profile(stage, ViewEvent::FileExists(true));
    assert_eq!(stage, ViewStage::Opening("/d/f".to_string()));
    let stage = view_profile(stage, ViewEvent::Opened(Ok(())));
    assert_eq!(stage, ViewStage::Finished(Ok(())));
    assert_eq!(view_profile(stage, ViewEvent::FileExists(true)), ViewStage::Finished(Ok(())));
}

#[test]
fn errors_of_showing_a_profile() {
    let ends = vec![
        (
            view_profile(ViewStage::FindingItem, ViewEvent::Item(Err(oops()))),
            ViewError::Lookup(oops()),
            "oops",
        ),
        (
            view_profile(ViewStage::FindingItem, ViewEvent::Item(Ok(with_file(None)))),
            ViewError::NoFile,
            "the file field is null",
        ),
        (
            view_profile(ViewStage::ResolvingPath("f".to_string()), ViewEvent::Path(Err(oops()))),
            ViewError::Directory(oops()),
            "oops",
        ),
        (
            view_profile(ViewStage::CheckingFile("f".to_string()), ViewEvent::FileExists(false)),
            ViewError::FileNotFound,
            "the file not found",
        ),
        (
            view_profile(ViewStage::Opening("f".to_string()), ViewEvent::Opened(Err(oops()))),
            ViewError::Open(oops()),
            "oops",
        ),
    ];
    for (stage, error, message) in ends {
        assert_eq!(error.message(), message);
        assert_eq!(stage, ViewStage::Finished(Err(error)));
    }
}

#[test]
fn order_of_texts() {
    assert!(same_text("a", "a"));
    assert!(!same_text("a", "A"));
    for (left, right) in [("", "a"), ("a", "b"), ("a", "ab"), ("Z", "a"), ("z", "é"), ("\u{ffff}", "\u{10000}")] {
        assert_eq!(text_order(left, right), TextOrder::Before);
        assert_eq!(text_order(right, left), TextOrder::After);
        assert_eq!(text_order(left, left), TextOrder::Same);
        assert!(left < right);
    }
}
