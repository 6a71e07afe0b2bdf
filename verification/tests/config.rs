use gachitore_api::config::{parse_allowed_origins, Config, ConfigError, ConfigVars};
use gachitore_api::text::{parse_u16, split_text};

fn some(text: &str) -> Option<String> {
    Some(text.to_string())
}

fn full() -> ConfigVars {
    ConfigVars {
        host: some("127.0.0.1"),
        port: some("9000"),
        allowed_origins: some("https://a.example.com, https://b.example.com"),
        supabase_url: some("https://proj.example.com/"),
        supabase_anon_key: some("anon"),
        supabase_jwt_secret: some("secret"),
        supabase_jwks_url: some("https://keys.example.com/jwks.json"),
        gemini_api_key: some("gem"),
        gemini_model: some("gemini-pro"),
    }
}

fn minimal() -> ConfigVars {
    ConfigVars {
        host: None,
        port: None,
        allowed_origins: None,
        supabase_url: some("https://proj.example.com/"),
        supabase_anon_key: some("anon"),
        supabase_jwt_secret: None,
        supabase_jwks_url: None,
        gemini_api_key: some("gem"),
        gemini_model: None,
    }
}

#[test]
fn text_is_cut_at_every_separator() {
    assert_eq!(split_text("a,b,c", ','), vec!["a", "b", "c"]);
    assert_eq!(split_text("abc", ','), vec!["abc"]);
    assert_eq!(split_text("", ','), vec![""]);
    assert_eq!(split_text(",", ','), vec!["", ""]);
    assert_eq!(split_text("a,,b,", ','), vec!["a", "", "b", ""]);
    assert_eq!(split_text(",a", ','), vec!["", "a"]);
    assert_eq!(split_text("語,日本", ','), vec!["語", "日本"]);
}

#[test]
fn origins_are_trimmed_and_empty_ones_dropped() {
    assert_eq!(
        parse_allowed_origins("http://localhost:3000"),
        vec!["http://localhost:3000".to_string()]
    );
    assert_eq!(
        parse_allowed_origins(" https://a.example.com ,https://b.example.com,, ,"),
        vec!["https://a.example.com".to_string(), "https://b.example.com".to_string()]
    );
    assert!(parse_allowed_origins("").is_empty());
    assert!(parse_allowed_origins(" , ,").is_empty());
}

#[test]
fn configuration_takes_every_variable_that_is_set() {
    let c = Config::from_vars(full()).unwrap();
    assert_eq!(c.host, "127.0.0.1");
    assert_eq!(c.port, 9000);
    assert_eq!(c.allowed_origins, vec!["https://a.example.com", "https://b.example.com"]);
    assert_eq!(c.supabase_url, "https://proj.example.com/");
    assert_eq!(c.supabase_anon_key, "anon");
    assert_eq!(c.supabase_jwt_secret, "secret");
    assert_eq!(c.supabase_jwks_url, "https://keys.example.com/jwks.json");
    assert_eq!(c.gemini_api_key, "gem");
    assert_eq!(c.gemini_model, "gemini-pro");
}

#[test]
fn configuration_has_defaults() {
    let c = Config::from_vars(minimal()).unwrap();
    assert_eq!(c.host, "0.0.0.0");
    assert_eq!(c.port, 8080);
    assert_eq!(c.allowed_origins, vec!["http://localhost:3000"]);
    assert_eq!(c.supabase_jwt_secret, "");
    assert_eq!(c.supabase_jwks_url, "https://proj.example.com/auth/v1/.well-known/jwks.json");
    assert_eq!(c.gemini_model, "gemini-1.5-flash");
    assert_eq!(c.issuer(), "https://proj.example.com/auth/v1");
}

#[test]
fn configuration_errors_come_in_order() {
    let mut vars = minimal();
    vars.supabase_url = None;
    vars.port = some("x");
    vars.supabase_anon_key = None;
    vars.gemini_api_key = None;
    assert_eq!(Config::from_vars(vars).unwrap_err(), ConfigError::MissingSupabaseUrl);
    let mut vars = minimal();
    vars.port = some("x");
    vars.supabase_anon_key = None;
    vars.gemini_api_key = None;
    assert_eq!(Config::from_vars(vars).unwrap_err(), ConfigError::InvalidPort);
    let mut vars = minimal();
    vars.supabase_anon_key = None;
    vars.gemini_api_key = None;
    assert_eq!(Config::from_vars(vars).unwrap_err(), ConfigError::MissingSupabaseAnonKey);
    let mut vars = minimal();
    vars.gemini_api_key = None;
    assert_eq!(Config::from_vars(vars).unwrap_err(), ConfigError::MissingGeminiApiKey);
}

#[test]
fn port_must_be_a_port_number() {
    for port in ["", "+", "65536", "99999999999999999999", "-1", "-0", "80 ", " 80", "8 0", "http", "80a", "８０", "++80"] {
        let mut vars = minimal();
        vars.port = some(port);
        assert_eq!(Config::from_vars(vars).unwrap_err(), ConfigError::InvalidPort);
    }
    for (port, number) in [("0", 0u16), ("65535", 65535), ("0080", 80), ("+80", 80), ("000065535", 65535)] {
        let mut vars = minimal();
        vars.port = some(port);
        assert_eq!(Config::from_vars(vars).unwrap().port, number);
    }
}

#[test]
fn configuration_errors_say_what_is_missing() {
    assert_eq!(ConfigError::MissingSupabaseUrl.message(), "SUPABASE_URL is required");
    assert_eq!(ConfigError::MissingSupabaseAnonKey.message(), "SUPABASE_ANON_KEY is required");
    assert_eq!(ConfigError::MissingGeminiApiKey.message(), "GEMINI_API_KEY is required");
    assert_eq!(ConfigError::InvalidPort.message(), "PORT is not a port number");
}

#[test]
fn decimal_numbers_parse_as_the_standard_library_reads_them() {
    for text in ["", "+", "0", "7", "+7", "007", "65535", "65536", "70000", "-1", "1.0", "1e3", " 1", "1 ", "0x10", "٣"] {
        assert_eq!(parse_u16(text), text.parse::<u16>().ok());
    }
}
