use gitup::config::{get_git_config, set_git_config};
use gitup::domain::GitUserConfig;
use gitup::error::AppError;
use gitup::gitconfig::{identity_write_plan, op_outcome, ConfigKey, ConfigOp, GitGlobalConfig};

fn with_key(key: Option<&str>) -> GitUserConfig {
    GitUserConfig {
        name: Some("N".to_string()),
        email: Some("n@x.com".to_string()),
        signing_key: key.map(|k| k.to_string()),
    }
}

#[test]
fn absent_signing_key_disables_signing_and_clears_key() {
    let mut live = GitGlobalConfig::new();
    live.assign(ConfigKey::UserSigningKey, "OLDKEY".to_string());
    live.assign(ConfigKey::CommitGpgSign, "true".to_string());
    assert_eq!(set_git_config(&mut live, &with_key(None)), Ok(()));
    assert_eq!(live.get(ConfigKey::UserSigningKey), None);
    assert_eq!(live.get(ConfigKey::CommitGpgSign), Some("false".to_string()));
}

#[test]
fn empty_signing_key_disables_signing() {
    let mut live = GitGlobalConfig::new();
    assert_eq!(set_git_config(&mut live, &with_key(Some(""))), Ok(()));
    assert_eq!(live.get(ConfigKey::UserSigningKey), None);
    assert_eq!(live.get(ConfigKey::CommitGpgSign), Some("false".to_string()));
}

#[test]
fn signing_key_enables_signing() {
    let mut live = GitGlobalConfig::new();
    assert_eq!(set_git_config(&mut live, &with_key(Some("9F3A"))), Ok(()));
    assert_eq!(live.get(ConfigKey::UserSigningKey), Some("9F3A".to_string()));
    assert_eq!(live.get(ConfigKey::CommitGpgSign), Some("true".to_string()));
}

#[test]
fn write_plan_orders_fields_then_signing_pair() {
    let plan = identity_write_plan(&with_key(Some("K")));
    assert_eq!(
        plan,
        vec![
            ConfigOp::Assign { key: ConfigKey::UserName, value: "N".to_string() },
            ConfigOp::Assign { key: ConfigKey::UserEmail, value: "n@x.com".to_string() },
            ConfigOp::Assign { key: ConfigKey::UserSigningKey, value: "K".to_string() },
            ConfigOp::Assign { key: ConfigKey::CommitGpgSign, value: "true".to_string() },
        ]
    );
    let plan = identity_write_plan(&GitUserConfig::empty());
    assert_eq!(
        plan,
        vec![
            ConfigOp::UnsetAll { key: ConfigKey::UserSigningKey },
            ConfigOp::Assign { key: ConfigKey::CommitGpgSign, value: "false".to_string() },
        ]
    );
}

#[test]
fn op_args_match_the_vcs_command_line() {
    let set = ConfigOp::Assign { key: ConfigKey::UserEmail, value: "a@b.c".to_string() };
    assert_eq!(set.args(), vec!["config", "--global", "user.email", "a@b.c"]);
    let unset = ConfigOp::UnsetAll { key: ConfigKey::UserSigningKey };
    assert_eq!(unset.args(), vec!["config", "--global", "--unset-all", "user.signingkey"]);
    assert_eq!(ConfigKey::CommitGpgSign.as_str(), "commit.gpgsign");
    assert_eq!(ConfigKey::UserName.as_str(), "user.name");
}

#[test]
fn unset_failure_is_tolerated_other_failures_are_not() {
    let failure = AppError::CommandFailed { command: "git".to_string(), code: 5, stderr: String::new() };
    let unset = ConfigOp::UnsetAll { key: ConfigKey::UserSigningKey };
    assert_eq!(op_outcome(&unset, Err(failure.clone())), Ok(()));
    let set = ConfigOp::Assign { key: ConfigKey::CommitGpgSign, value: "false".to_string() };
    assert_eq!(op_outcome(&set, Err(failure.clone())), Err(failure));
    assert_eq!(op_outcome(&set, Ok(())), Ok(()));
}

#[test]
fn unsetting_absent_key_reports_failure_and_changes_nothing() {
    let mut live = GitGlobalConfig::new();
    let r = live.apply(&ConfigOp::UnsetAll { key: ConfigKey::UserSigningKey });
    assert!(matches!(r, Err(AppError::CommandFailed { code: 5, .. })));
    assert_eq!(live, GitGlobalConfig::new());
}

#[test]
fn reading_identity_takes_each_key_independently() {
    let mut live = GitGlobalConfig::new();
    live.assign(ConfigKey::UserEmail, "only@mail.com".to_string());
    let id = get_git_config(&live);
    assert_eq!(id.name, None);
    assert_eq!(id.email, Some("only@mail.com".to_string()));
    assert_eq!(id.signing_key, None);
}
