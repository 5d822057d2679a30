use pmon::data_providers::{providers_from_config, Provider};
use pmon::domain::config::{
    validate_config, validate_config_raw, Config, ConfigError, GithubRepoConfig, GitlabRepoConfig,
    ProviderConfig, RawConfig, RawProvider, TokenConfig,
};
use pmon::domain::DataProvider;

fn text_of(value: &serde_yaml::Value, key: &str) -> String {
    value.get(key).and_then(|v| v.as_str()).expect("a string").to_string()
}

fn raw_of(document: &serde_yaml::Value) -> RawConfig {
    RawConfig {
        providers: document.get("providers").and_then(|value| value.as_sequence()).map(
            |providers| {
                providers
                    .iter()
                    .map(|provider| RawProvider {
                        kind: provider
                            .get("type")
                            .and_then(|value| value.as_str())
                            .map(|text| text.to_string()),
                        repos: provider
                            .get("repos")
                            .and_then(|value| value.as_sequence())
                            .map(|repos| repos.len()),
                    })
                    .collect()
            },
        ),
    }
}

fn config_of(document: &serde_yaml::Value) -> Config {
    let mut providers = Vec::new();
    for provider in document.get("providers").and_then(|v| v.as_sequence()).expect("providers") {
        let token = TokenConfig { env: text_of(provider.get("token").expect("token"), "env") };
        let repos = provider.get("repos").and_then(|v| v.as_sequence()).expect("repos");
        match text_of(provider, "type").as_str() {
            "github" => providers.push(ProviderConfig::Github {
                token,
                repos: repos
                    .iter()
                    .map(|repo| GithubRepoConfig {
                        name: text_of(repo, "name"),
                        main_branch: text_of(repo, "main_branch"),
                        workflow: text_of(repo, "workflow"),
                    })
                    .collect(),
            }),
            "gitlab" => providers.push(ProviderConfig::Gitlab {
                token,
                repos: repos
                    .iter()
                    .map(|repo| GitlabRepoConfig {
                        name: text_of(repo, "name"),
                        main_branch: text_of(repo, "main_branch"),
                    })
                    .collect(),
            }),
            other => panic!("unknown provider {}", other),
        }
    }
    Config { providers }
}

fn read(yaml: &str) -> Result<Config, ConfigError> {
    let document: serde_yaml::Value =
        serde_yaml::from_str(yaml).map_err(|error| ConfigError::Parse(error.to_string()))?;
    validate_config_raw(&raw_of(&document))?;
    let config = config_of(&document);
    validate_config(&config)?;
    Ok(config)
}

const SAMPLE: &str = r#"providers:
  - type: github
    token:
      env: GITHUB_TOKEN
    repos:
      - name: nknapp/frontend-testing
        main_branch: main
        workflow: playwright.yml
"#;

#[test]
fn reads_sample_config() {
    let config = read(SAMPLE).expect("read config");

    assert_eq!(config.providers.len(), 1);
    let provider = &config.providers[0];
    match provider {
        ProviderConfig::Github { token, repos } => {
            assert_eq!(token.env, "GITHUB_TOKEN");
            assert_eq!(repos.len(), 1);

            let repo = &repos[0];
            assert_eq!(repo.name, "nknapp/frontend-testing");
            assert_eq!(repo.main_branch, "main");
            assert_eq!(repo.workflow, "playwright.yml");
        }
        ProviderConfig::Gitlab { .. } => panic!("expected github provider"),
    }
}

#[test]
fn reads_inline_yaml() {
    let yaml = r#"providers:
  - type: github
    token:
      env: GITHUB_TOKEN
    repos:
      - name: nknapp/frontend-testing
        main_branch: main
        workflow: playwright.yml
"#;

    let config = read(yaml).expect("read temp config");

    assert_eq!(config.providers.len(), 1);
    match &config.providers[0] {
        ProviderConfig::Github { repos, .. } => {
            assert_eq!(repos.len(), 1);
        }
        ProviderConfig::Gitlab { .. } => panic!("expected github provider"),
    }
}

#[test]
fn rejects_multiple_providers() {
    let yaml = r#"providers:
  - type: github
    token:
      env: GITHUB_TOKEN
    repos:
      - name: nknapp/frontend-testing
        main_branch: main
        workflow: playwright.yml
  - type: gitlab
    token:
      env: GITLAB_TOKEN
    repos:
      - name: org/repo
        main_branch: main
"#;

    let error = read(yaml).expect_err("expected validation error");

    assert!(error.message().contains("Only one provider is supported for now"));
}

#[test]
fn rejects_multiple_repos() {
    let yaml = r#"providers:
  - type: github
    token:
      env: GITHUB_TOKEN
    repos:
      - name: nknapp/frontend-testing
        main_branch: main
        workflow: playwright.yml
      - name: nknapp/other-repo
        main_branch: main
        workflow: build.yml
"#;

    let error = read(yaml).expect_err("expected validation error");

    assert!(error.message().contains("Only one repository is supported for now"));
}

#[test]
fn rejects_unknown_provider() {
    let yaml = r#"providers:
  - type: bitbucket
    token:
      env: BITBUCKET_TOKEN
    repos:
      - name: org/repo
        main_branch: main
"#;

    let error = read(yaml).expect_err("expected validation error");

    assert!(error.message().contains("Only github or gitlab providers are supported for now"));
}

fn raw(providers: Option<Vec<(Option<&str>, Option<usize>)>>) -> RawConfig {
    RawConfig {
        providers: providers.map(|list| {
            list.into_iter()
                .map(|(kind, repos)| RawProvider { kind: kind.map(|k| k.to_string()), repos })
                .collect()
        }),
    }
}

fn complaint(verdict: Result<(), ConfigError>) -> Option<String> {
    match verdict {
        Ok(()) => None,
        Err(ConfigError::Validation(detail)) => Some(detail),
        Err(other) => panic!("unexpected error {:?}", other),
    }
}

#[test]
fn raw_validation_names_the_first_broken_rule() {
    assert_eq!(
        complaint(validate_config_raw(&raw(None))),
        Some("At least one provider is required".to_string())
    );
    assert_eq!(
        complaint(validate_config_raw(&raw(Some(vec![])))),
        Some("Only one provider is supported for now".to_string())
    );
    assert_eq!(
        complaint(validate_config_raw(&raw(Some(vec![
            (Some("github"), Some(1)),
            (Some("github"), Some(1))
        ])))),
        Some("Only one provider is supported for now".to_string())
    );
    assert_eq!(
        complaint(validate_config_raw(&raw(Some(vec![(None, Some(1))])))),
        Some("Only github or gitlab providers are supported for now".to_string())
    );
    assert_eq!(
        complaint(validate_config_raw(&raw(Some(vec![(Some("GitHub"), Some(1))])))),
        Some("Only github or gitlab providers are supported for now".to_string())
    );
    assert_eq!(
        complaint(validate_config_raw(&raw(Some(vec![(Some("gitlab"), None)])))),
        Some("Only one repository is supported for now".to_string())
    );
    assert_eq!(
        complaint(validate_config_raw(&raw(Some(vec![(Some("gitlab"), Some(0))])))),
        Some("Only one repository is supported for now".to_string())
    );
    assert_eq!(
        complaint(validate_config_raw(&raw(Some(vec![(Some("bitbucket"), Some(3))])))),
        Some("Only github or gitlab providers are supported for now".to_string())
    );
    assert_eq!(complaint(validate_config_raw(&raw(Some(vec![(Some("github"), Some(1))])))), None);
    assert_eq!(complaint(validate_config_raw(&raw(Some(vec![(Some("gitlab"), Some(1))])))), None);
}

fn github_entry(repos: usize) -> ProviderConfig {
    ProviderConfig::Github {
        token: TokenConfig { env: "GITHUB_TOKEN".to_string() },
        repos: (0..repos)
            .map(|i| GithubRepoConfig {
                name: format!("org/repo{}", i),
                main_branch: "main".to_string(),
                workflow: "build.yml".to_string(),
            })
            .collect(),
    }
}

fn gitlab_entry(repos: usize) -> ProviderConfig {
    ProviderConfig::Gitlab {
        token: TokenConfig { env: "GITLAB_TOKEN".to_string() },
        repos: (0..repos)
            .map(|i| GitlabRepoConfig {
                name: format!("group/project{}", i),
                main_branch: "trunk".to_string(),
            })
            .collect(),
    }
}

#[test]
fn validation_asks_for_one_provider_with_one_repository() {
    assert_eq!(
        complaint(validate_config(&Config { providers: vec![] })),
        Some("Only one provider is supported for now".to_string())
    );
    assert_eq!(
        complaint(validate_config(&Config { providers: vec![github_entry(1), gitlab_entry(1)] })),
        Some("Only one provider is supported for now".to_string())
    );
    assert_eq!(
        complaint(validate_config(&Config { providers: vec![github_entry(0)] })),
        Some("Only one repository is supported for now".to_string())
    );
    assert_eq!(
        complaint(validate_config(&Config { providers: vec![gitlab_entry(2)] })),
        Some("Only one repository is supported for now".to_string())
    );
    assert_eq!(complaint(validate_config(&Config { providers: vec![github_entry(1)] })), None);
    assert_eq!(complaint(validate_config(&Config { providers: vec![gitlab_entry(1)] })), None);
}

#[test]
fn each_error_has_its_own_line() {
    assert_eq!(
        ConfigError::Io("No such file".to_string()).message(),
        "Failed to read config file: No such file"
    );
    assert_eq!(
        ConfigError::Parse("bad indent".to_string()).message(),
        "Failed to parse config file: bad indent"
    );
    assert_eq!(
        ConfigError::Validation("Only one provider is supported for now".to_string()).message(),
        "Invalid config file: Only one provider is supported for now"
    );
}

#[test]
fn providers_follow_the_configuration() {
    let config = Config { providers: vec![gitlab_entry(2), github_entry(1)] };
    let mut providers = providers_from_config(&config);
    assert_eq!(providers.len(), 2);

    assert!(matches!(providers[0], Provider::Gitlab(_)));
    assert_eq!(providers[0].token_env(), "GITLAB_TOKEN");
    let requests = providers[0].requests(Some("t"));
    let urls: Vec<String> =
        requests.iter().map(|request| request.as_ref().expect("a request").url.clone()).collect();
    assert_eq!(
        urls,
        vec![
            "https://gitlab.com/api/v4/projects/group%2Fproject0/pipelines?ref=trunk&per_page=2",
            "https://gitlab.com/api/v4/projects/group%2Fproject1/pipelines?ref=trunk&per_page=2",
        ]
    );

    assert!(matches!(providers[1], Provider::Github(_)));
    assert_eq!(providers[1].token_env(), "GITHUB_TOKEN");
    let requests = providers[1].requests(Some("t"));
    assert_eq!(requests.len(), 1);
    assert_eq!(
        requests[0].as_ref().expect("a request").url,
        "https://api.github.com/repos/org/repo0/actions/workflows/build.yml/runs?branch=main&per_page=2"
    );

    for provider in providers.iter_mut() {
        assert!(!provider.stop_requested());
        let schedule = provider.start().expect("a worker to spawn");
        assert_eq!(schedule.poll_interval.nanos, 60_000_000_000);
        assert!(provider.start().is_none());
        assert!(provider.stop());
    }
}

#[test]
fn no_entries_give_no_providers() {
    assert!(providers_from_config(&Config { providers: vec![] }).is_empty());
}
