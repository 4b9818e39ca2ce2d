use backend::config::{
    check_config, database_required, default_origins, is_production, jwt_secret, parse_flag,
    parse_port, split_origins, AppConfig, EnvValues,
};

fn values() -> EnvValues {
    EnvValues {
        host: "127.0.0.1".to_string(),
        port: None,
        database_url: None,
        database_required: None,
        environment: None,
        allowed_origins: None,
        has_jwt_secret: false,
    }
}

#[test]
fn production_names() {
    assert!(is_production("production"));
    assert!(is_production("prod"));
    assert!(is_production("PRODUCTION"));
    assert!(is_production("Prod"));
    assert!(!is_production("development"));
    assert!(!is_production(""));
    assert!(!is_production("production "));
}

#[test]
fn flags() {
    assert_eq!(parse_flag("1"), Some(true));
    assert_eq!(parse_flag("true"), Some(true));
    assert_eq!(parse_flag("YES"), Some(true));
    assert_eq!(parse_flag("0"), Some(false));
    assert_eq!(parse_flag("False"), Some(false));
    assert_eq!(parse_flag("no"), Some(false));
    assert_eq!(parse_flag("maybe"), None);
    assert_eq!(parse_flag(""), None);
}

#[test]
fn signing_secret_choice() {
    assert_eq!(jwt_secret(Some("s3".to_string()), false), Some("s3".to_string()));
    assert_eq!(jwt_secret(Some("s3".to_string()), true), Some("s3".to_string()));
    assert_eq!(
        jwt_secret(None, true),
        Some("DEVELOPMENT_ONLY_SECRET_CHANGE_IN_PRODUCTION_32bytes".to_string())
    );
    assert_eq!(jwt_secret(None, false), None);
}

#[test]
fn origins_are_split_and_trimmed() {
    assert_eq!(
        split_origins("https://a.example, https://b.example ,,  ,https://c.example"),
        vec!["https://a.example".to_string(), "https://b.example".to_string(), "https://c.example".to_string()]
    );
    assert_eq!(split_origins(""), Vec::<String>::new());
    assert_eq!(split_origins(" , "), Vec::<String>::new());
    assert_eq!(split_origins("one"), vec!["one".to_string()]);
    assert_eq!(split_origins("one,"), vec!["one".to_string()]);
    assert_eq!(default_origins().len(), 4);
    assert_eq!(default_origins()[1], "http://localhost:19006");
}

#[test]
fn ports() {
    assert_eq!(parse_port(&None), 8000);
    assert_eq!(parse_port(&Some("8080".to_string())), 8080);
    assert_eq!(parse_port(&Some("+80".to_string())), 80);
    assert_eq!(parse_port(&Some("0".to_string())), 0);
    assert_eq!(parse_port(&Some("65535".to_string())), 65535);
    assert_eq!(parse_port(&Some("65536".to_string())), 8000);
    assert_eq!(parse_port(&Some("-0".to_string())), 8000);
    assert_eq!(parse_port(&Some("-1".to_string())), 8000);
    assert_eq!(parse_port(&Some("http".to_string())), 8000);
    assert_eq!(parse_port(&Some("".to_string())), 8000);
}

#[test]
fn database_requirement() {
    assert!(database_required(&Some("true".to_string()), false));
    assert!(!database_required(&Some("no".to_string()), true));
    assert!(database_required(&Some("perhaps".to_string()), true));
    assert!(!database_required(&Some("perhaps".to_string()), false));
    assert!(database_required(&None, true));
    assert!(!database_required(&None, false));
}

#[test]
fn startup_faults_in_order() {
    assert_eq!(
        check_config(true, false, true, false, false),
        Err("DATABASE_REQUIRED=true but DATABASE_URL is missing".to_string())
    );
    assert_eq!(
        check_config(true, true, true, false, false),
        Err("ALLOWED_ORIGINS must be set in production".to_string())
    );
    assert_eq!(
        check_config(false, false, true, true, false),
        Err("JWT_SECRET must be set in production".to_string())
    );
    assert_eq!(check_config(false, false, true, true, true), Ok(()));
    assert_eq!(check_config(false, false, false, false, false), Ok(()));
}

#[test]
fn development_defaults() {
    let config = AppConfig::from_values(values()).unwrap();
    assert_eq!(config.host, "127.0.0.1");
    assert_eq!(config.port, 8000);
    assert_eq!(config.database_url, None);
    assert!(!config.database_required);
    assert_eq!(config.environment, "development");
    assert!(!config.is_production());
    assert_eq!(config.allowed_origins.len(), 4);
    assert_eq!(config.allowed_origins[0], "http://localhost:8081");
}

#[test]
fn production_needs_origins_and_secret() {
    let mut v = values();
    v.environment = Some("Production".to_string());
    assert_eq!(
        AppConfig::from_values(v.clone()).unwrap_err(),
        "ALLOWED_ORIGINS must be set in production"
    );
    v.allowed_origins = Some("https://app.example".to_string());
    assert_eq!(AppConfig::from_values(v.clone()).unwrap_err(), "JWT_SECRET must be set in production");
    v.has_jwt_secret = true;
    let config = AppConfig::from_values(v).unwrap();
    assert_eq!(config.environment, "production");
    assert!(config.is_production());
    assert_eq!(config.allowed_origins, vec!["https://app.example".to_string()]);
}

#[test]
fn required_database_needs_an_address() {
    let mut v = values();
    v.database_required = Some("yes".to_string());
    v.database_url = Some("   ".to_string());
    assert_eq!(
        AppConfig::from_values(v.clone()).unwrap_err(),
        "DATABASE_REQUIRED=true but DATABASE_URL is missing"
    );
    v.database_url = Some("postgres://db/app".to_string());
    v.port = Some("9000".to_string());
    let config = AppConfig::from_values(v).unwrap();
    assert!(config.database_required);
    assert_eq!(config.database_url, Some("postgres://db/app".to_string()));
    assert_eq!(config.port, 9000);
}

#[test]
fn numeric_settings() {
    assert_eq!(backend::config::number_or(&None, 100, 20), 20);
    assert_eq!(backend::config::number_or(&Some("7".to_string()), 100, 20), 7);
    assert_eq!(backend::config::number_or(&Some("100".to_string()), 100, 20), 100);
    assert_eq!(backend::config::number_or(&Some("101".to_string()), 100, 20), 20);
    assert_eq!(backend::config::number_or(&Some("seven".to_string()), 100, 20), 20);
    assert_eq!(backend::config::number_or(&Some("-7".to_string()), 100, 20), 20);
    assert_eq!(
        backend::config::number_or(&Some("18446744073709551615".to_string()), u64::MAX, 30),
        u64::MAX
    );
    assert_eq!(backend::config::number_or(&Some("18446744073709551616".to_string()), u64::MAX, 30), 30);
}

#[test]
fn ports_agree_with_the_standard_library() {
    for text in ["0", "1", "80", "+80", "-0", "-1", "65535", "65536", "99999999999999999999", "", "+", "8 0", "0080", "8080\n"] {
        assert_eq!(parse_port(&Some(text.to_string())), text.parse::<u16>().unwrap_or(8000));
    }
}
