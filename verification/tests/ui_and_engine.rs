use rime_tui::rime::{
    deploy_result_after, deploy_settled, get_shared_data_dir, get_user_data_dir,
    user_data_dir_from, Config, DeployResult, RimeError,
};
use rime_tui::tui::{wrap_text, Candidate, UiData};

#[test]
fn wrap_text_empty() {
    assert_eq!(wrap_text("", 10), (0, String::new()));
}

#[test]
fn wrap_text_splits_on_newlines() {
    assert_eq!(wrap_text("ab\ncd", 80), (2, String::from("ab\ncd")));
    assert_eq!(wrap_text("ab\ncd\n", 80), (2, String::from("ab\ncd\n")));
}

#[test]
fn wrap_text_breaks_at_pane_width() {
    assert_eq!(wrap_text("abcd", 2), (2, String::from("ab\ncd\n")));
    assert_eq!(wrap_text("abcde", 2), (3, String::from("ab\ncd\ne")));
}

#[test]
fn wrap_text_counts_wide_characters() {
    // Each ideograph occupies two columns, so a two-column pane holds
    // exactly one of them per line.
    assert_eq!(wrap_text("你好", 2), (2, String::from("你\n好\n")));
    // The break check charges the newest character's width once more,
    // so a line is finished as soon as adding another character of the
    // same width would overflow the pane.
    assert_eq!(wrap_text("你好", 4), (1, String::from("你好\n")));
    assert_eq!(wrap_text("你好", 6), (1, String::from("你好")));
}

#[test]
fn deploy_notification_resolves_result() {
    let deploy = String::from("deploy");
    let success = String::from("success");
    let failure = String::from("failure");
    let other = String::from("schema");

    let r = deploy_result_after(DeployResult::Init, &deploy, &success);
    assert_eq!(r, DeployResult::Success);
    let r = deploy_result_after(DeployResult::Init, &deploy, &failure);
    assert_eq!(r, DeployResult::Failure);
    let r = deploy_result_after(DeployResult::Init, &deploy, &other);
    assert_eq!(r, DeployResult::Init);
    let r = deploy_result_after(DeployResult::Init, &other, &success);
    assert_eq!(r, DeployResult::Init);

    assert!(!deploy_settled(DeployResult::Init));
    assert!(deploy_settled(DeployResult::Success));
    assert!(deploy_settled(DeployResult::Failure));
}

#[test]
fn rime_error_messages() {
    assert_eq!(RimeError::ProcessKey.message(), "ProcessKey");
    assert_eq!(RimeError::CloseSession.message(), "CloseSession");
    assert_eq!(RimeError::SessionNotExists.message(), "SessionNotExists");
}

#[test]
fn data_directories() {
    assert_eq!(get_shared_data_dir(), "/usr/share/rime-data/");
    assert_eq!(
        user_data_dir_from(Some(String::from("/home/u"))),
        "/home/u/.local/share/fcitx5/rime"
    );
    assert_eq!(user_data_dir_from(None), "");

    let dir = get_user_data_dir();
    if !dir.is_empty() {
        assert!(dir.ends_with("/.local/share/fcitx5/rime"));
    }

    let config = Config { shared_data_dir: get_shared_data_dir(), user_data_dir: dir };
    assert!(config.shared_data_dir.starts_with('/'));
}

#[test]
fn ui_data_defaults_are_empty() {
    let ui = UiData::default();
    assert_eq!(ui.preedit, "");
    assert_eq!(ui.output, "");
    assert!(ui.candidates.is_empty());
    assert!(ui.log.is_empty());
    assert!(ui.select_labels.is_none());

    let c = Candidate::default();
    assert_eq!(c.text, "");
    assert_eq!(c.comment, "");
    assert!(!c.highlighted);
}

#[test]
fn distribution_metadata() {
    assert_eq!(rime_tui::DISTRIBUTION_NAME, "Rime");
    assert_eq!(rime_tui::DISTRIBUTION_CODE_NAME, "Rime");
    assert_eq!(rime_tui::DISTRIBUTION_VERSION, "0.0.0");
    assert_eq!(rime_tui::APP_NAME, "rime-tui");
}
