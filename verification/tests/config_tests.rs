use hindsight_cli::config::{
    apply_prompt_input, default_api_url, generate_doc_id, is_valid_api_url, parse_config_content,
    render_config_file, Config, ConfigError, ConfigFileRead, ConfigSource,
};

#[test]
fn env_wins_over_file_and_default() {
    let r = Config::load(
        Some(String::from("https://env.example")),
        ConfigFileRead::Contents(String::from("api_url = \"https://file.example\"\n")),
    )
    .unwrap();
    assert_eq!(r.api_url, "https://env.example");
    assert_eq!(r.source, ConfigSource::Environment);
}

#[test]
fn file_wins_over_default() {
    let r = Config::load(
        None,
        ConfigFileRead::Contents(String::from("api_url = \"https://x.example/\"\n")),
    )
    .unwrap();
    assert_eq!(r.api_url, "https://x.example/");
    assert_eq!(r.source, ConfigSource::LocalFile);
}

#[test]
fn default_when_nothing_set() {
    let r = Config::load(None, ConfigFileRead::Absent).unwrap();
    assert_eq!(r.api_url, "http://localhost:8888");
    assert_eq!(r.source, ConfigSource::Default);
    assert_eq!(default_api_url(), "http://localhost:8888");
}

#[test]
fn default_when_file_has_no_url() {
    let r = Config::load(
        None,
        ConfigFileRead::Contents(String::from("# nothing relevant\nother = 1\n")),
    )
    .unwrap();
    assert_eq!(r.api_url, "http://localhost:8888");
    assert_eq!(r.source, ConfigSource::Default);
}

#[test]
fn invalid_env_url_rejected() {
    let e = Config::load(Some(String::from("ftp://x")), ConfigFileRead::Absent).unwrap_err();
    match e {
        ConfigError::InvalidUrl(u) => assert_eq!(u, "ftp://x"),
        _ => panic!("expected an invalid-URL error"),
    }
}

#[test]
fn invalid_file_url_rejected() {
    let e = Config::load(
        None,
        ConfigFileRead::Contents(String::from("api_url = \"gopher://hole\"\n")),
    )
    .unwrap_err();
    match e {
        ConfigError::InvalidUrl(u) => assert_eq!(u, "gopher://hole"),
        _ => panic!("expected an invalid-URL error"),
    }
}

#[test]
fn unreadable_file_is_fatal() {
    let e = Config::load(None, ConfigFileRead::Unreadable).unwrap_err();
    assert!(matches!(e, ConfigError::UnreadableFile));
}

#[test]
fn from_env_matches_load() {
    let r = Config::from_env(None, ConfigFileRead::Absent).unwrap();
    assert_eq!(r.api_url(), "http://localhost:8888");
}

#[test]
fn parser_tolerates_quotes_whitespace_and_noise() {
    let content = "# comment\n\nname = \"ignored\"\n   api_url   =   'https://a.example'   \n";
    assert_eq!(
        parse_config_content(content),
        Some(String::from("https://a.example"))
    );
}

#[test]
fn parser_takes_first_nonempty_value() {
    let content = "api_url = \napi_url = \"https://b.example\"\napi_url = \"https://c.example\"\n";
    assert_eq!(
        parse_config_content(content),
        Some(String::from("https://b.example"))
    );
}

#[test]
fn parser_yields_nothing_on_empty_input() {
    assert_eq!(parse_config_content(""), None);
    assert_eq!(parse_config_content("\n\n"), None);
}

#[test]
fn validator_requires_http_scheme() {
    assert!(is_valid_api_url("http://a"));
    assert!(is_valid_api_url("https://a"));
    assert!(!is_valid_api_url("Http://a"));
    assert!(!is_valid_api_url("localhost:8888"));
    assert!(!is_valid_api_url(""));
    assert!(!is_valid_api_url("http:/missing"));
}

#[test]
fn persist_then_resolve_round_trips() {
    let url = "https://x.example/";
    let content = render_config_file(url);
    assert_eq!(content, "api_url = \"https://x.example/\"\n");
    let r = Config::load(None, ConfigFileRead::Contents(content)).unwrap();
    assert_eq!(r.api_url, url);
    assert_eq!(r.source, ConfigSource::LocalFile);
}

#[test]
fn prompt_empty_input_keeps_default() {
    assert_eq!(apply_prompt_input("http://d", ""), "http://d");
    assert_eq!(apply_prompt_input("http://d", "   \n"), "http://d");
    assert_eq!(apply_prompt_input("http://d", " https://u \n"), "https://u");
}

#[test]
fn config_file_path_is_under_home() {
    assert_eq!(
        Config::config_file_path("/home/u"),
        "/home/u/.hindsight/config"
    );
}

#[test]
fn generated_doc_id_has_fixed_prefix() {
    let id = generate_doc_id();
    assert!(id.starts_with("cli_put_"));
    assert!(id.len() > "cli_put_".len());
}

#[test]
fn source_labels() {
    assert_eq!(ConfigSource::LocalFile.label(), "config file");
    assert_eq!(ConfigSource::Environment.label(), "environment variable");
    assert_eq!(ConfigSource::Default.label(), "default");
}

#[test]
fn invalid_url_message_names_the_url() {
    let e = ConfigError::InvalidUrl(String::from("nope"));
    assert_eq!(
        e.message(),
        "Invalid API URL: nope. Must start with http:// or https://"
    );
}

#[test]
fn after_help_names_url_and_source() {
    let c = Config::load(None, ConfigFileRead::Absent).unwrap();
    let text = hindsight_cli::config::get_after_help(Some(&c));
    assert_eq!(
        text,
        "Current API URL: http://localhost:8888 (from default)\n\nRun 'hindsight configure' to change the API URL."
    );
    let fallback = hindsight_cli::config::get_after_help(None);
    assert_eq!(text, fallback);
}

#[test]
fn parser_handles_crlf_line_endings() {
    let content = "other = 1\r\napi_url = \"https://crlf.example\"\r\n";
    assert_eq!(
        parse_config_content(content),
        Some(String::from("https://crlf.example"))
    );
}

#[test]
fn parser_truncates_value_at_second_equals_sign() {
    let content = "api_url = \"http://x.example?a=b\"\n";
    assert_eq!(
        parse_config_content(content),
        Some(String::from("http://x.example?a"))
    );
}
