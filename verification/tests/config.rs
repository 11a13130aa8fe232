use novel_api::config::Config;
use novel_api::errors::ConfigError;

fn full() -> Vec<(String, String)> {
    [
        ("DATABASE_URL", "postgres://localhost/novel"),
        ("REDIS_URL", "redis://localhost"),
        ("JWT_SECRET_KEY", "SECRET-REDACTED"),
        ("JWT_ACCESS_EXPIRES_IN", "900"),
        ("JWT_REFRESH_EXPIRES_IN", "604800"),
        ("API_KEY", "k-123"),
        ("EMAIL", "admin@example.com"),
        ("PASSWORD", "pw"),
        ("CLOUDFLARE_API_TOKEN", "cf-token"),
        ("CLOUDFLARE_SECRET", "cf-secret"),
        ("S3_ENDPOINT", "https://s3.example.com"),
        ("S3_BUCKET", "novels"),
        ("CDN_URL", "https://cdn.example.com"),
        ("PORT", "8080"),
    ]
    .iter()
    .map(|(k, v)| (k.to_string(), v.to_string()))
    .collect()
}

fn without(name: &str) -> Vec<(String, String)> {
    full().into_iter().filter(|(k, _)| k != name).collect()
}

fn with(name: &str, value: &str) -> Vec<(String, String)> {
    full().into_iter().map(|(k, v)| if k == name { (k, value.to_string()) } else { (k, v) }).collect()
}

#[test]
fn a_complete_environment_is_read() {
    let config = Config::from_env(&full()).unwrap();
    assert_eq!(config.database_url, "postgres://localhost/novel");
    assert_eq!(config.redis_url, "redis://localhost");
    assert_eq!(config.jwt_secret_key, "SECRET-REDACTED");
    assert_eq!(config.jwt_expire_in, 900);
    assert_eq!(config.jwt_refresh_expire_in, 604800);
    assert_eq!(config.api_key, "k-123");
    assert_eq!(config.email, "admin@example.com");
    assert_eq!(config.password, "pw");
    assert_eq!(config.cloudflare_api_token, "cf-token");
    assert_eq!(config.cloudflare_secret, "cf-secret");
    assert_eq!(config.s3_endpoint, "https://s3.example.com");
    assert_eq!(config.s3_bucket, "novels");
    assert_eq!(config.cdn_url, "https://cdn.example.com");
    assert_eq!(config.port, "8080");
}

#[test]
fn each_missing_setting_is_named() {
    for (name, _) in full() {
        assert_eq!(Config::from_env(&without(&name)), Err(ConfigError::MissingVar(name.clone())));
    }
    assert_eq!(Config::from_env(&vec![]), Err(ConfigError::MissingVar("DATABASE_URL".to_string())));
}

#[test]
fn the_first_fault_in_reading_order_is_reported() {
    let vars: Vec<(String, String)> =
        full().into_iter().filter(|(k, _)| k != "PORT" && k != "REDIS_URL" && k != "EMAIL").collect();
    assert_eq!(Config::from_env(&vars), Err(ConfigError::MissingVar("REDIS_URL".to_string())));
    let vars: Vec<(String, String)> = with("JWT_ACCESS_EXPIRES_IN", "soon")
        .into_iter()
        .filter(|(k, _)| k != "API_KEY")
        .collect();
    assert!(matches!(Config::from_env(&vars), Err(ConfigError::ParseError(name, _)) if name == "JWT_ACCESS_EXPIRES_IN"));
}

#[test]
fn lifetimes_must_be_integers() {
    match Config::from_env(&with("JWT_ACCESS_EXPIRES_IN", "15m")) {
        Err(ConfigError::ParseError(name, why)) => {
            assert_eq!(name, "JWT_ACCESS_EXPIRES_IN");
            assert_eq!(why, "invalid digit found in string");
        }
        other => panic!("unexpected {:?}", other),
    }
    match Config::from_env(&with("JWT_REFRESH_EXPIRES_IN", "")) {
        Err(ConfigError::ParseError(name, why)) => {
            assert_eq!(name, "JWT_REFRESH_EXPIRES_IN");
            assert_eq!(why, "cannot parse integer from empty string");
        }
        other => panic!("unexpected {:?}", other),
    }
    assert!(matches!(
        Config::from_env(&with("JWT_REFRESH_EXPIRES_IN", "99999999999999999999")),
        Err(ConfigError::ParseError(_, _))
    ));
    assert_eq!(Config::from_env(&with("JWT_ACCESS_EXPIRES_IN", "-60")).unwrap().jwt_expire_in, -60);
    assert_eq!(Config::from_env(&with("JWT_ACCESS_EXPIRES_IN", "+60")).unwrap().jwt_expire_in, 60);
}

#[test]
fn the_first_of_two_pairs_with_one_name_counts() {
    let mut vars = full();
    vars.push(("PORT".to_string(), "9090".to_string()));
    assert_eq!(Config::from_env(&vars).unwrap().port, "8080");
    let mut vars = vec![("PORT".to_string(), "7070".to_string())];
    vars.extend(full());
    assert_eq!(Config::from_env(&vars).unwrap().port, "7070");
}

#[test]
fn empty_values_are_values() {
    assert_eq!(Config::from_env(&with("API_KEY", "")).unwrap().api_key, "");
}
