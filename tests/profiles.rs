use gitup::config::{delete_profile, get_git_config, load_app_config, save_profile, set_git_config, use_profile};
use gitup::domain::{AppConfig, GitUserConfig};
use gitup::error::AppError;
use gitup::gitconfig::{ConfigKey, GitGlobalConfig};
use gitup::handler::save_live_identity;

fn identity(name: &str, email: &str, key: Option<&str>) -> GitUserConfig {
    GitUserConfig {
        name: Some(name.to_string()),
        email: Some(email.to_string()),
        signing_key: key.map(|k| k.to_string()),
    }
}

fn stored(store: &AppConfig, name: &str) -> Option<GitUserConfig> {
    store.get_profile(name)
}

#[test]
fn use_work_profile_applies_identity_and_marks_it_active() {
    let mut store = AppConfig::new();
    save_profile(&mut store, "work", &identity("A", "a@x.com", None));
    assert_eq!(store.current_profile, None);
    let mut live = GitGlobalConfig::new();
    let applied = use_profile(&mut store, &mut live, "work").unwrap();
    assert_eq!(applied, identity("A", "a@x.com", None));
    assert_eq!(live.get(ConfigKey::UserName), Some("A".to_string()));
    assert_eq!(live.get(ConfigKey::UserEmail), Some("a@x.com".to_string()));
    assert_eq!(live.get(ConfigKey::CommitGpgSign), Some("false".to_string()));
    assert_eq!(live.get(ConfigKey::UserSigningKey), None);
    assert_eq!(store.current_profile, Some("work".to_string()));
    assert_eq!(stored(&store, "work"), Some(identity("A", "a@x.com", None)));
}

#[test]
fn saving_incomplete_identity_fails_and_keeps_store() {
    let mut store = AppConfig::new();
    save_profile(&mut store, "home", &identity("B", "b@y.org", None));
    let before = store.clone();
    let live = identity("", "", None);
    let r = save_live_identity(&mut store, "work", &live);
    assert_eq!(r, Err(AppError::IncompleteIdentity));
    assert_eq!(store.profiles, before.profiles);
    assert_eq!(store.current_profile, before.current_profile);

    let missing = GitUserConfig { name: Some("C".to_string()), email: None, signing_key: None };
    assert_eq!(save_live_identity(&mut store, "work", &missing), Err(AppError::IncompleteIdentity));
    assert_eq!(store.profiles.len(), 1);
}

#[test]
fn saving_complete_identity_stores_it() {
    let mut store = AppConfig::new();
    let live = identity("C", "c@z.net", Some("KEY1"));
    assert_eq!(save_live_identity(&mut store, "work", &live), Ok(()));
    assert_eq!(stored(&store, "work"), Some(live));
}

#[test]
fn save_then_use_gives_back_the_saved_identity() {
    let mut store = AppConfig::new();
    let saved = identity("Dana", "dana@example.com", Some("ABCDEF12"));
    save_profile(&mut store, "personal", &saved);
    let mut live = GitGlobalConfig::new();
    let got = use_profile(&mut store, &mut live, "personal").unwrap();
    assert_eq!(got, saved);
    assert_eq!(get_git_config(&live), saved);
    assert_eq!(live.get(ConfigKey::CommitGpgSign), Some("true".to_string()));
}

#[test]
fn saving_under_an_existing_name_replaces_it() {
    let mut store = AppConfig::new();
    save_profile(&mut store, "work", &identity("A", "a@x.com", None));
    save_profile(&mut store, "work", &identity("E", "e@x.com", Some("K")));
    assert_eq!(store.profiles.len(), 1);
    assert_eq!(stored(&store, "work"), Some(identity("E", "e@x.com", Some("K"))));
}

#[test]
fn deleting_active_profile_clears_pointer() {
    let mut store = AppConfig::new();
    save_profile(&mut store, "work", &identity("A", "a@x.com", None));
    save_profile(&mut store, "home", &identity("B", "b@y.org", None));
    let mut live = GitGlobalConfig::new();
    use_profile(&mut store, &mut live, "work").unwrap();
    assert_eq!(delete_profile(&mut store, "work"), Ok(()));
    assert_eq!(store.current_profile, None);
    assert_eq!(stored(&store, "work"), None);
    assert!(stored(&store, "home").is_some());
}

#[test]
fn deleting_other_profile_keeps_pointer() {
    let mut store = AppConfig::new();
    save_profile(&mut store, "work", &identity("A", "a@x.com", None));
    save_profile(&mut store, "home", &identity("B", "b@y.org", None));
    let mut live = GitGlobalConfig::new();
    use_profile(&mut store, &mut live, "work").unwrap();
    assert_eq!(delete_profile(&mut store, "home"), Ok(()));
    assert_eq!(store.current_profile, Some("work".to_string()));
    assert_eq!(store.profiles.len(), 1);
}

#[test]
fn deleting_missing_profile_fails() {
    let mut store = AppConfig::new();
    save_profile(&mut store, "work", &identity("A", "a@x.com", None));
    assert_eq!(
        delete_profile(&mut store, "nope"),
        Err(AppError::ProfileNotFound("nope".to_string()))
    );
    assert_eq!(store.profiles.len(), 1);
}

#[test]
fn using_missing_profile_fails_and_keeps_pointer() {
    let mut store = AppConfig::new();
    save_profile(&mut store, "work", &identity("A", "a@x.com", None));
    let mut live = GitGlobalConfig::new();
    use_profile(&mut store, &mut live, "work").unwrap();
    let live_before = live.clone();
    let r = use_profile(&mut store, &mut live, "missing");
    assert_eq!(r, Err(AppError::ProfileNotFound("missing".to_string())));
    assert_eq!(store.current_profile, Some("work".to_string()));
    assert_eq!(live, live_before);
}

#[test]
fn loading_without_storage_gives_empty_store() {
    let store = load_app_config(None);
    assert!(store.profiles.is_empty());
    assert_eq!(store.current_profile, None);
}

#[test]
fn loading_stored_data_keeps_it() {
    let mut saved = AppConfig::new();
    save_profile(&mut saved, "work", &identity("A", "a@x.com", None));
    saved.current_profile = Some("work".to_string());
    let store = load_app_config(Some(saved.clone()));
    assert_eq!(store.profiles, saved.profiles);
    assert_eq!(store.current_profile, Some("work".to_string()));
}

#[test]
fn failed_write_does_not_mark_profile_active() {
    let mut store = AppConfig::new();
    save_profile(&mut store, "work", &identity("A", "a@x.com", None));
    let failure = AppError::CommandFailed { command: "git".to_string(), code: 1, stderr: "locked".to_string() };
    let r = store.activate_profile("work", Err(failure.clone()));
    assert_eq!(r, Err(failure));
    assert_eq!(store.current_profile, None);
    assert_eq!(store.activate_profile("work", Ok(())), Ok(()));
    assert_eq!(store.current_profile, Some("work".to_string()));
}

#[test]
fn lookup_reports_missing_name() {
    let store = AppConfig::new();
    assert_eq!(store.lookup_profile("x"), Err(AppError::ProfileNotFound("x".to_string())));
}

#[test]
fn set_git_config_keeps_absent_fields() {
    let mut live = GitGlobalConfig::new();
    live.assign(ConfigKey::UserName, "Old".to_string());
    let r = set_git_config(&mut live, &GitUserConfig { name: None, email: Some("n@x.com".to_string()), signing_key: None });
    assert_eq!(r, Ok(()));
    assert_eq!(live.get(ConfigKey::UserName), Some("Old".to_string()));
    assert_eq!(live.get(ConfigKey::UserEmail), Some("n@x.com".to_string()));
}
