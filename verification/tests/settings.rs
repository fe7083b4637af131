use terra_fusion_pro::config::{
    cors_origins, flag_var, is_white_space, number_var, trim, var, var_or, ApiKeys, Config,
    DatabaseConfig, SecurityConfig, ServerConfig, ServiceUrls, ServicesConfig,
};
use terra_fusion_pro::error::AppError;
use terra_fusion_pro::utils::config_loader::{
    get_environment, is_development, is_production, is_test,
};

fn vars(pairs: &[(&str, &str)]) -> Vec<(String, String)> {
    pairs.iter().map(|(k, v)| (k.to_string(), v.to_string())).collect()
}

fn fault(message: &str) -> Result<Config, AppError> {
    Err(AppError::Configuration(message.to_string()))
}

#[test]
fn defaults() {
    let config = Config::from_env(&vars(&[("DATABASE_URL", "postgres://db")])).unwrap();
    assert_eq!(
        config,
        Config {
            database: DatabaseConfig {
                url: "postgres://db".to_string(),
                max_connections: 10,
                run_migrations: true,
            },
            server: ServerConfig {
                host: "0.0.0.0".to_string(),
                port: 5000,
                cors_origins: vec!["*".to_string()],
                use_https: false,
            },
            security: SecurityConfig {
                jwt_secret: "default_jwt_secret_change_me_in_production".to_string(),
                jwt_expiration: 3600,
                refresh_expiration: 604800,
                password_hash_rounds: 12,
            },
            services: ServicesConfig {
                service_urls: ServiceUrls {
                    api_gateway: "http://localhost:5002".to_string(),
                    property_service: "http://localhost:5003".to_string(),
                    user_service: "http://localhost:5004".to_string(),
                    report_service: "http://localhost:5007".to_string(),
                    form_service: "http://localhost:5005".to_string(),
                    analysis_service: "http://localhost:5006".to_string(),
                },
                api_keys: ApiKeys {
                    google_maps: None,
                    zillow: None,
                    aws_access_key: None,
                    aws_secret_key: None,
                },
            },
        }
    );
}

#[test]
fn everything_set() {
    let config = Config::from_env(&vars(&[
        ("DATABASE_URL", "postgres://db"),
        ("JWT_SECRET", "s3"),
        ("HOST", "127.0.0.1"),
        ("PORT", "+8080"),
        ("DB_MAX_CONNECTIONS", "4294967295"),
        ("RUN_MIGRATIONS", "false"),
        ("JWT_EXPIRATION", "18446744073709551615"),
        ("REFRESH_EXPIRATION", "0"),
        ("PASSWORD_HASH_ROUNDS", "007"),
        ("CORS_ORIGINS", " https://a.example ,https://b.example,, \t "),
        ("USE_HTTPS", "true"),
        ("API_GATEWAY_URL", "g"),
        ("PROPERTY_SERVICE_URL", "p"),
        ("USER_SERVICE_URL", "u"),
        ("FORM_SERVICE_URL", "f"),
        ("ANALYSIS_SERVICE_URL", "a"),
        ("REPORT_SERVICE_URL", "r"),
        ("GOOGLE_MAPS_API_KEY", "gm"),
        ("ZILLOW_API_KEY", "z"),
        ("AWS_ACCESS_KEY_ID", "ak"),
        ("AWS_SECRET_ACCESS_KEY", "sk"),
        ("DATABASE_URL", "postgres://second"),
    ]))
    .unwrap();
    assert_eq!(config.database.url, "postgres://db");
    assert_eq!(config.database.max_connections, 4294967295);
    assert!(!config.database.run_migrations);
    assert_eq!(config.server.host, "127.0.0.1");
    assert_eq!(config.server.port, 8080);
    assert_eq!(
        config.server.cors_origins,
        vec!["https://a.example".to_string(), "https://b.example".to_string(), String::new(), String::new()]
    );
    assert!(config.server.use_https);
    assert_eq!(config.security.jwt_secret, "s3");
    assert_eq!(config.security.jwt_expiration, u64::MAX);
    assert_eq!(config.security.refresh_expiration, 0);
    assert_eq!(config.security.password_hash_rounds, 7);
    assert_eq!(
        config.services.service_urls,
        ServiceUrls {
            api_gateway: "g".to_string(),
            property_service: "p".to_string(),
            user_service: "u".to_string(),
            report_service: "r".to_string(),
            form_service: "f".to_string(),
            analysis_service: "a".to_string(),
        }
    );
    assert_eq!(
        config.services.api_keys,
        ApiKeys {
            google_maps: Some("gm".to_string()),
            zillow: Some("z".to_string()),
            aws_access_key: Some("ak".to_string()),
            aws_secret_key: Some("sk".to_string()),
        }
    );
}

#[test]
fn faults_in_order() {
    assert_eq!(Config::from_env(&vars(&[])), fault("DATABASE_URL must be set"));
    assert_eq!(
        Config::from_env(&vars(&[("PORT", "x")])),
        fault("DATABASE_URL must be set")
    );
    let with = |name: &str, value: &str| {
        Config::from_env(&vars(&[("DATABASE_URL", "d"), (name, value), ("USE_HTTPS", "maybe")]))
    };
    assert_eq!(with("PORT", "65536"), fault("PORT must be a valid number"));
    assert_eq!(with("PORT", ""), fault("PORT must be a valid number"));
    assert_eq!(with("PORT", "-1"), fault("PORT must be a valid number"));
    assert_eq!(with("PORT", " 80"), fault("PORT must be a valid number"));
    assert_eq!(with("PORT", "+"), fault("PORT must be a valid number"));
    assert_eq!(
        with("DB_MAX_CONNECTIONS", "4294967296"),
        fault("DB_MAX_CONNECTIONS must be a valid number")
    );
    assert_eq!(with("RUN_MIGRATIONS", "TRUE"), fault("RUN_MIGRATIONS must be a boolean"));
    assert_eq!(
        with("JWT_EXPIRATION", "18446744073709551616"),
        fault("JWT_EXPIRATION must be a valid number")
    );
    assert_eq!(
        with("REFRESH_EXPIRATION", "1e3"),
        fault("REFRESH_EXPIRATION must be a valid number")
    );
    assert_eq!(
        with("PASSWORD_HASH_ROUNDS", "twelve"),
        fault("PASSWORD_HASH_ROUNDS must be a valid number")
    );
    assert_eq!(with("HOST", "h"), fault("USE_HTTPS must be a boolean"));
}

#[test]
fn variables() {
    let v = vars(&[("A", "1"), ("B", "true"), ("A", "2"), ("C", "no")]);
    assert_eq!(var(&v, "A"), Some("1".to_string()));
    assert_eq!(var(&v, "Z"), None);
    assert_eq!(var_or(&v, "B", "d"), "true");
    assert_eq!(var_or(&v, "Z", "d"), "d");
    assert_eq!(number_var(&v, "A", 10, 5), Some(1));
    assert_eq!(number_var(&v, "A", 0, 0), None);
    assert_eq!(number_var(&v, "Z", 10, 5), Some(5));
    assert_eq!(number_var(&v, "B", 10, 5), None);
    assert_eq!(flag_var(&v, "B", false), Some(true));
    assert_eq!(flag_var(&v, "Z", false), Some(false));
    assert_eq!(flag_var(&v, "C", false), None);
    assert_eq!(cors_origins(&v), vec!["*".to_string()]);
}

#[test]
fn trimming() {
    assert_eq!(trim("  a b \t\n"), "a b");
    assert_eq!(trim(""), "");
    assert_eq!(trim(" \u{3000}\u{a0} "), "");
    assert_eq!(trim("x"), "x");
    assert_eq!(trim("\u{200b}x"), "\u{200b}x");
    for c in ['\u{9}', '\u{d}', ' ', '\u{85}', '\u{a0}', '\u{1680}', '\u{2000}', '\u{200a}', '\u{2028}', '\u{2029}', '\u{202f}', '\u{205f}', '\u{3000}'] {
        assert!(is_white_space(c));
        assert!(c.is_whitespace());
    }
    for c in ['a', '\u{8}', '\u{e}', '\u{200b}', '\u{180e}', '\u{feff}'] {
        assert!(!is_white_space(c));
        assert!(!c.is_whitespace());
    }
}

#[test]
fn white_space_agrees_with_the_standard_library() {
    let mut code: u32 = 0;
    while code < 0x11_0000 {
        if let Some(c) = char::from_u32(code) {
            assert_eq!(is_white_space(c), c.is_whitespace(), "U+{:04X}", code);
        }
        code += 1;
    }
}

#[test]
fn environments() {
    assert_eq!(get_environment(None), "development");
    assert_eq!(get_environment(Some("production".to_string())), "production");
    assert!(is_development("development"));
    assert!(!is_development("Development"));
    assert!(is_production("production"));
    assert!(!is_production("test"));
    assert!(is_test("test"));
    assert!(!is_test(""));
}
