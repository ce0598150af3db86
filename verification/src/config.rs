//! Configuration resolution: eight string-valued settings, each taken from a
//! command-line flag or, for a subset, from an environment variable as
//! fallback. The lookup is an explicit ordered one — flag first, environment
//! second — and a missing required value is reported by name.

use vstd::prelude::*;

verus! {

/// The eight runtime settings, resolved and immutable.
#[derive(Debug)]
pub struct Config {
    pub argocd_host: String,
    pub argocd_token: String,
    pub app_name: String,
    pub revision: String,
    pub gitlab_host: String,
    pub gitlab_project_id: String,
    pub gitlab_mr_id: String,
    pub gitlab_token: String,
}

/// Names a setting, for reporting which required value was missing.
#[derive(Clone, Copy, Debug, PartialEq, Eq, Structural)]
pub enum SettingName {
    ArgocdHost,
    ArgocdToken,
    AppName,
    Revision,
    GitlabHost,
    GitlabProjectId,
    GitlabMrId,
    GitlabToken,
}

/// The raw material of configuration: for each setting the flag value, if one
/// was given, and for the settings that have one, the environment fallback.
pub struct ConfigSources {
    pub argocd_host: Option<String>,
    pub argocd_token: Option<String>,
    pub argocd_token_env: Option<String>,
    pub app_name: Option<String>,
    pub revision: Option<String>,
    pub revision_env: Option<String>,
    pub gitlab_host: Option<String>,
    pub gitlab_host_env: Option<String>,
    pub gitlab_project_id: Option<String>,
    pub gitlab_project_id_env: Option<String>,
    pub gitlab_mr_id: Option<String>,
    pub gitlab_mr_id_env: Option<String>,
    pub gitlab_token: Option<String>,
    pub gitlab_token_env: Option<String>,
}

/// The ordered lookup: the flag value if one was given, otherwise the
/// environment fallback, otherwise nothing.
pub open spec fn resolved(flag: Option<String>, env: Option<String>) -> Option<Seq<char>> {
    match flag {
        Some(v) => Some(v@),
        None => match env {
            Some(v) => Some(v@),
            None => None,
        },
    }
}

impl ConfigSources {
    pub open spec fn spec_argocd_host(self) -> Option<Seq<char>> {
        resolved(self.argocd_host, None)
    }

    pub open spec fn spec_argocd_token(self) -> Option<Seq<char>> {
        resolved(self.argocd_token, self.argocd_token_env)
    }

    pub open spec fn spec_app_name(self) -> Option<Seq<char>> {
        resolved(self.app_name, None)
    }

    pub open spec fn spec_revision(self) -> Option<Seq<char>> {
        resolved(self.revision, self.revision_env)
    }

    pub open spec fn spec_gitlab_host(self) -> Option<Seq<char>> {
        resolved(self.gitlab_host, self.gitlab_host_env)
    }

    pub open spec fn spec_gitlab_project_id(self) -> Option<Seq<char>> {
        resolved(self.gitlab_project_id, self.gitlab_project_id_env)
    }

    pub open spec fn spec_gitlab_mr_id(self) -> Option<Seq<char>> {
        resolved(self.gitlab_mr_id, self.gitlab_mr_id_env)
    }

    pub open spec fn spec_gitlab_token(self) -> Option<Seq<char>> {
        resolved(self.gitlab_token, self.gitlab_token_env)
    }

    /// Every required setting resolves to a value.
    pub open spec fn complete(self) -> bool {
        &&& self.spec_argocd_host() is Some
        &&& self.spec_argocd_token() is Some
        &&& self.spec_app_name() is Some
        &&& self.spec_revision() is Some
        &&& self.spec_gitlab_host() is Some
        &&& self.spec_gitlab_project_id() is Some
        &&& self.spec_gitlab_mr_id() is Some
        &&& self.spec_gitlab_token() is Some
    }

    /// The first setting, in declaration order, that resolves to nothing.
    pub open spec fn first_missing(self) -> Option<SettingName> {
        if self.spec_argocd_host() is None {
            Some(SettingName::ArgocdHost)
        } else if self.spec_argocd_token() is None {
            Some(SettingName::ArgocdToken)
        } else if self.spec_app_name() is None {
            Some(SettingName::AppName)
        } else if self.spec_revision() is None {
            Some(SettingName::Revision)
        } else if self.spec_gitlab_host() is None {
            Some(SettingName::GitlabHost)
        } else if self.spec_gitlab_project_id() is None {
            Some(SettingName::GitlabProjectId)
        } else if self.spec_gitlab_mr_id() is None {
            Some(SettingName::GitlabMrId)
        } else if self.spec_gitlab_token() is None {
            Some(SettingName::GitlabToken)
        } else {
            None
        }
    }
}

/// The ordered lookup, executed: the flag value wins, the environment
/// fallback stands in only where no flag was given.
pub fn resolve(flag: Option<String>, env: Option<String>) -> (r: Option<String>)
    ensures
        match r {
            Some(v) => resolved(flag, env) == Some(v@),
            None => resolved(flag, env) is None,
        },
{
    match flag {
        Some(v) => Some(v),
        None => env,
    }
}

impl Config {
    /// Resolves every setting, or reports the first missing one. Success is
    /// owed exactly when every setting resolves; on failure nothing of the
    /// configuration is handed out, so no later step can run on a partial one.
    pub fn from_sources(sources: ConfigSources) -> (r: Result<Config, SettingName>)
        ensures
            r is Ok <==> sources.complete(),
            match r {
                Ok(c) => {
                    &&& Some(c.argocd_host@) == sources.spec_argocd_host()
                    &&& Some(c.argocd_token@) == sources.spec_argocd_token()
                    &&& Some(c.app_name@) == sources.spec_app_name()
                    &&& Some(c.revision@) == sources.spec_revision()
                    &&& Some(c.gitlab_host@) == sources.spec_gitlab_host()
                    &&& Some(c.gitlab_project_id@) == sources.spec_gitlab_project_id()
                    &&& Some(c.gitlab_mr_id@) == sources.spec_gitlab_mr_id()
                    &&& Some(c.gitlab_token@) == sources.spec_gitlab_token()
                },
                Err(name) => sources.first_missing() == Some(name),
            },
    {
        let argocd_host = match resolve(sources.argocd_host, None) {
            Some(v) => v,
            None => {
                return Err(SettingName::ArgocdHost);
            },
        };
        let argocd_token = match resolve(sources.argocd_token, sources.argocd_token_env) {
            Some(v) => v,
            None => {
                return Err(SettingName::ArgocdToken);
            },
        };
        let app_name = match resolve(sources.app_name, None) {
            Some(v) => v,
            None => {
                return Err(SettingName::AppName);
            },
        };
        let revision = match resolve(sources.revision, sources.revision_env) {
            Some(v) => v,
            None => {
                return Err(SettingName::Revision);
            },
        };
        let gitlab_host = match resolve(sources.gitlab_host, sources.gitlab_host_env) {
            Some(v) => v,
            None => {
                return Err(SettingName::GitlabHost);
            },
        };
        let gitlab_project_id = match resolve(
            sources.gitlab_project_id,
            sources.gitlab_project_id_env,
        ) {
            Some(v) => v,
            None => {
                return Err(SettingName::GitlabProjectId);
            },
        };
        let gitlab_mr_id = match resolve(sources.gitlab_mr_id, sources.gitlab_mr_id_env) {
            Some(v) => v,
            None => {
                return Err(SettingName::GitlabMrId);
            },
        };
        let gitlab_token = match resolve(sources.gitlab_token, sources.gitlab_token_env) {
            Some(v) => v,
            None => {
                return Err(SettingName::GitlabToken);
            },
        };
        Ok(Config {
            argocd_host,
            argocd_token,
            app_name,
            revision,
            gitlab_host,
            gitlab_project_id,
            gitlab_mr_id,
            gitlab_token,
        })
    }
}

impl SettingName {
    /// The long command-line flag that would have supplied the setting, for a
    /// startup diagnostic.
    pub fn flag_name(self) -> (r: &'static str)
        ensures
            r@ == match self {
                SettingName::ArgocdHost => "--argocd-host"@,
                SettingName::ArgocdToken => "--argocd-token"@,
                SettingName::AppName => "--app-name"@,
                SettingName::Revision => "--revision"@,
                SettingName::GitlabHost => "--gitlab-host"@,
                SettingName::GitlabProjectId => "--gitlab-project-id"@,
                SettingName::GitlabMrId => "--gitlab-mr-id"@,
                SettingName::GitlabToken => "--gitlab-token"@,
            },
    {
        match self {
            SettingName::ArgocdHost => "--argocd-host",
            SettingName::ArgocdToken => "--argocd-token",
            SettingName::AppName => "--app-name",
            SettingName::Revision => "--revision",
            SettingName::GitlabHost => "--gitlab-host",
            SettingName::GitlabMrId => "--gitlab-mr-id",
            SettingName::GitlabProjectId => "--gitlab-project-id",
            SettingName::GitlabToken => "--gitlab-token",
        }
    }
}

} // verus!
