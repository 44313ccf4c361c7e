use service_vitals::config::loader::{substitute_references, TomlConfigLoader};
use service_vitals::config::types::{Config, GlobalConfig};
use service_vitals::error::ConfigError;
use service_vitals::strmap::StrMap;

fn env(vars: &[(&str, &str)]) -> StrMap<String> {
    let mut m = StrMap::new();
    for (k, v) in vars {
        m.insert(k.to_string(), v.to_string());
    }
    m
}

#[test]
fn test_substitute_env_vars_disabled() {
    let loader = TomlConfigLoader::new(false);
    let content = "test ${VAR} content";
    let result = loader.substitute_env_vars(content).unwrap();
    assert_eq!(result, content);
}

#[test]
fn test_env_var_substitution() {
    let loader = TomlConfigLoader::new(true)
        .with_env_var("WEBHOOK_URL".to_string(), "https://test.webhook.url".to_string())
        .with_env_var("API_TOKEN".to_string(), "test-token-123".to_string());
    let text = loader
        .substitute_env_vars(
            "default_feishu_webhook_url = \"${WEBHOOK_URL}\"\n\"Authorization\" = \"Bearer ${API_TOKEN}\"\n",
        )
        .unwrap();
    assert_eq!(
        text,
        "default_feishu_webhook_url = \"https://test.webhook.url\"\n\"Authorization\" = \"Bearer test-token-123\"\n"
    );
}

#[test]
fn test_env_var_substitution_missing_var() {
    let loader = TomlConfigLoader::new(true);
    let result = loader.substitute_env_vars("default_feishu_webhook_url = \"${MISSING_VAR}\"");
    match result {
        Err(e) => {
            assert!(e.to_string().contains("MISSING_VAR"));
            assert_eq!(e.to_string(), "环境变量替换失败: MISSING_VAR");
        }
        Ok(text) => panic!("unexpected: {}", text),
    }
}

#[test]
fn test_env_substitution_host() {
    let text = substitute_references(
        "url = \"https://${HOST}/x\"",
        &env(&[("HOST", "example.com")]),
    )
    .unwrap();
    assert_eq!(text, "url = \"https://example.com/x\"");
    match substitute_references("url = \"https://${HOST}/x\"", &env(&[])) {
        Err(ConfigError::EnvVarError { var }) => assert_eq!(var, "HOST"),
        other => panic!("unexpected: {:?}", other),
    }
}

#[test]
fn test_env_substitution_grammar() {
    let vars = env(&[("A", "1"), ("_b9", "two"), ("E", ""), ("N", "${A}"), ("服", "x")]);
    let ok = |s: &str| substitute_references(s, &vars).unwrap();
    assert_eq!(ok(""), "");
    assert_eq!(ok("plain 服务"), "plain 服务");
    assert_eq!(ok("${A}${_b9}${E}!"), "1two!");
    assert_eq!(ok("服务 ${A} 服务"), "服务 1 服务");
    // What was put in is not read again.
    assert_eq!(ok("${N}"), "${A}");
    // No reference: a digit in front, a blank inside, no closing brace,
    // letters outside ASCII.
    assert_eq!(ok("${9A} ${A B} ${A ${} $ { ${服}"), "${9A} ${A B} ${A ${} $ { ${服}");
    assert_eq!(ok("$${A}}"), "$1}");
    assert_eq!(ok("${A"), "${A");
    // The first unknown variable is the one reported.
    match substitute_references("${A} ${X} ${Y}", &vars) {
        Err(ConfigError::EnvVarError { var }) => assert_eq!(var, "X"),
        other => panic!("unexpected: {:?}", other),
    }
}

#[test]
fn test_loader_validate() {
    let loader = TomlConfigLoader::new(true);
    let config = Config {
        global: GlobalConfig {
            default_feishu_webhook_url: None,
            message_template: None,
            check_interval_seconds: 60,
            log_level: "info".to_string(),
            request_timeout_seconds: 10,
            max_concurrent_checks: 50,
            retry_attempts: 3,
            retry_delay_seconds: 5,
            headers: StrMap::new(),
            web: None,
        },
        services: vec![],
    };
    match loader.validate(&config) {
        Err(ConfigError::ValidationError(m)) => assert_eq!(m, "至少需要配置一个服务"),
        other => panic!("unexpected: {:?}", other),
    }
}
