use argonaut::config::{Config, ConfigSources, SettingName, resolve};

fn full_sources() -> ConfigSources {
    ConfigSources {
        argocd_host: Some("argocd.example.com".to_string()),
        argocd_token: Some("argo-tok".to_string()),
        argocd_token_env: None,
        app_name: Some("my-app".to_string()),
        revision: Some("abc123".to_string()),
        revision_env: None,
        gitlab_host: Some("gitlab.example.com".to_string()),
        gitlab_host_env: None,
        gitlab_project_id: Some("42".to_string()),
        gitlab_project_id_env: None,
        gitlab_mr_id: Some("7".to_string()),
        gitlab_mr_id_env: None,
        gitlab_token: Some("lab-tok".to_string()),
        gitlab_token_env: None,
    }
}

#[test]
fn all_flags_present_resolves() {
    let config = Config::from_sources(full_sources()).unwrap();
    assert_eq!(config.argocd_host, "argocd.example.com");
    assert_eq!(config.argocd_token, "argo-tok");
    assert_eq!(config.app_name, "my-app");
    assert_eq!(config.revision, "abc123");
    assert_eq!(config.gitlab_host, "gitlab.example.com");
    assert_eq!(config.gitlab_project_id, "42");
    assert_eq!(config.gitlab_mr_id, "7");
    assert_eq!(config.gitlab_token, "lab-tok");
}

#[test]
fn flag_wins_over_environment() {
    let mut sources = full_sources();
    sources.revision_env = Some("from-env".to_string());
    let config = Config::from_sources(sources).unwrap();
    assert_eq!(config.revision, "abc123");
}

#[test]
fn environment_fallback_is_used() {
    let mut sources = full_sources();
    sources.gitlab_token = None;
    sources.gitlab_token_env = Some("env-tok".to_string());
    let config = Config::from_sources(sources).unwrap();
    assert_eq!(config.gitlab_token, "env-tok");
}

#[test]
fn missing_flag_only_setting_fails() {
    let mut sources = full_sources();
    sources.app_name = None;
    let err = Config::from_sources(sources).unwrap_err();
    assert_eq!(err, SettingName::AppName);
}

#[test]
fn missing_token_with_no_fallback_fails() {
    let mut sources = full_sources();
    sources.argocd_token = None;
    let err = Config::from_sources(sources).unwrap_err();
    assert_eq!(err, SettingName::ArgocdToken);
}

#[test]
fn first_missing_setting_is_reported() {
    let mut sources = full_sources();
    sources.revision = None;
    sources.gitlab_mr_id = None;
    let err = Config::from_sources(sources).unwrap_err();
    assert_eq!(err, SettingName::Revision);
}

#[test]
fn resolve_prefers_flag() {
    assert_eq!(
        resolve(Some("flag".to_string()), Some("env".to_string())),
        Some("flag".to_string())
    );
    assert_eq!(resolve(None, Some("env".to_string())), Some("env".to_string()));
    assert_eq!(resolve(None, None), None);
}

#[test]
fn flag_names_for_diagnostics() {
    assert_eq!(SettingName::ArgocdHost.flag_name(), "--argocd-host");
    assert_eq!(SettingName::ArgocdToken.flag_name(), "--argocd-token");
    assert_eq!(SettingName::AppName.flag_name(), "--app-name");
    assert_eq!(SettingName::Revision.flag_name(), "--revision");
    assert_eq!(SettingName::GitlabHost.flag_name(), "--gitlab-host");
    assert_eq!(SettingName::GitlabProjectId.flag_name(), "--gitlab-project-id");
    assert_eq!(SettingName::GitlabMrId.flag_name(), "--gitlab-mr-id");
    assert_eq!(SettingName::GitlabToken.flag_name(), "--gitlab-token");
}
