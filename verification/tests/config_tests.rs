use waka_tray::config::Config;
use waka_tray::config::config_path;
use waka_tray::config::config_path_in;
use waka_tray::config::encode_config;
use waka_tray::config::init_config;
use waka_tray::config::parse_config;

#[test]
fn parse_reads_the_api_key() {
    let c = parse_config("api_key = \"abcd-1234\"").expect("valid document");
    assert_eq!(c.api_key, "abcd-1234");
}

#[test]
fn parse_keeps_an_empty_key() {
    let c = parse_config("api_key = \"\"").expect("valid document");
    assert_eq!(c.api_key, "");
}

#[test]
fn parse_ignores_other_fields() {
    let c = parse_config("api_key = \"k\"\nother = 1\n").expect("valid document");
    assert_eq!(c.api_key, "k");
}

#[test]
fn empty_document_does_not_decode() {
    assert!(parse_config("").is_none());
}

#[test]
fn non_string_key_does_not_decode() {
    assert!(parse_config("api_key = 3").is_none());
}

#[test]
fn invalid_toml_does_not_decode() {
    assert!(parse_config("api_key = [[[").is_none());
}

#[test]
fn encode_round_trips() {
    let c = Config { api_key: String::from("xyz-789") };
    let doc = encode_config(&c);
    let back = parse_config(&doc).expect("encoded document decodes");
    assert_eq!(back.api_key, "xyz-789");
}

#[test]
fn valid_content_is_kept_and_file_untouched() {
    let outcome = init_config(Some(String::from("api_key = \"abcd\"")));
    assert_eq!(outcome.config.api_key, "abcd");
    assert!(outcome.rewrite.is_none());
}

#[test]
fn missing_file_writes_the_default_document() {
    let outcome = init_config(None);
    assert_eq!(outcome.config.api_key, "");
    let doc = outcome.rewrite.expect("a rewrite is ordered");
    assert_eq!(doc, "api_key = \"\"\n");
    let back = parse_config(&doc).expect("the default document decodes");
    assert_eq!(back.api_key, "");
}

#[test]
fn corrupt_content_is_replaced_by_the_default() {
    let outcome = init_config(Some(String::from("not really toml [")));
    assert_eq!(outcome.config.api_key, "");
    assert!(outcome.rewrite.is_some());
}

#[test]
fn path_is_under_dot_config() {
    assert_eq!(config_path_in("/home/u"), "/home/u/.config/waka-tray.toml");
}

#[test]
fn resolved_path_ends_with_the_file_name() {
    if let Some(p) = config_path() {
        assert!(p.ends_with("/.config/waka-tray.toml"));
    }
}
