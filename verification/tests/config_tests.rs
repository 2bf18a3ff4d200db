use kit::config::{
    encode_config, load_openai_api_key, load_token, load_username, parse_config,
    save_credentials, save_openai_api_key, Config, ConfigError,
};

#[test]
fn save_then_load_round_trips_token_and_username() {
    let written = save_credentials(None, "ghu_tok", "octocat");
    assert_eq!(load_token(Some(&written)).unwrap(), "ghu_tok");
    assert_eq!(load_username(Some(&written)).unwrap(), "octocat");
    assert!(load_openai_api_key(Some(&written)).unwrap().is_none());
}

#[test]
fn save_keeps_the_other_members() {
    let first = save_openai_api_key(None, "sk-123");
    let second = save_credentials(Some(&first), "tok", "user");
    assert_eq!(load_token(Some(&second)).unwrap(), "tok");
    assert_eq!(load_username(Some(&second)).unwrap(), "user");
    assert_eq!(load_openai_api_key(Some(&second)).unwrap().unwrap(), "sk-123");
    let third = save_openai_api_key(Some(&second), "sk-456");
    assert_eq!(load_token(Some(&third)).unwrap(), "tok");
    assert_eq!(load_openai_api_key(Some(&third)).unwrap().unwrap(), "sk-456");
}

#[test]
fn round_trip_is_byte_exact_for_awkward_values() {
    let c = Config {
        github_token: String::from("a\"b\\c\nd\te\rf\u{1}g\u{21bb}"),
        github_username: String::from(""),
        openai_api_key: String::from("  spaced  "),
    };
    let text = encode_config(&c);
    let back = parse_config(&text).expect("canonical text must parse");
    assert_eq!(back.github_token, c.github_token);
    assert_eq!(back.github_username, c.github_username);
    assert_eq!(back.openai_api_key, c.openai_api_key);
}

#[test]
fn missing_api_key_member_reads_as_absent() {
    let text = "{\"github_token\":\"t\",\"github_username\":\"u\"}";
    let c = parse_config(text).expect("older records still load");
    assert_eq!(c.github_token, "t");
    assert_eq!(c.github_username, "u");
    assert_eq!(c.openai_api_key, "");
    assert!(load_openai_api_key(Some(text)).unwrap().is_none());
}

#[test]
fn empty_api_key_member_reads_as_absent() {
    let text = "{\"openai_api_key\":\"\"}";
    assert!(load_openai_api_key(Some(text)).unwrap().is_none());
}

#[test]
fn absent_file_is_missing_for_loads_and_absent_for_api_key() {
    assert_eq!(load_token(None), Err(ConfigError::Missing));
    assert_eq!(load_username(None), Err(ConfigError::Missing));
    assert_eq!(load_openai_api_key(None), Ok(None));
}

#[test]
fn unreadable_text_is_corrupt() {
    assert_eq!(load_token(Some("not json")), Err(ConfigError::Corrupt));
    assert_eq!(load_token(Some("")), Err(ConfigError::Corrupt));
    assert_eq!(load_token(Some("[1,2]")), Err(ConfigError::Corrupt));
    assert_eq!(load_token(Some("{\"github_token\":5}")), Err(ConfigError::Corrupt));
    assert_eq!(
        load_token(Some("{\"github_token\":\"a\",\"github_token\":\"b\"}")),
        Err(ConfigError::Corrupt)
    );
    assert_eq!(load_token(Some("{\"github_token\":\"a\"")), Err(ConfigError::Corrupt));
    assert_eq!(
        load_openai_api_key(Some("{\"openai_api_key\":null}")),
        Err(ConfigError::Corrupt)
    );
}

#[test]
fn unknown_members_of_any_shape_are_ignored() {
    let text = "{ \"n\": -12.5e3, \"flag\": true, \"z\": null, \
                \"extra\": {\"a\": [1, {\"b\": \"}\"}]}, \"list\": [\"]\"], \
                \"github_token\": \"t\" }";
    let c = parse_config(text).expect("unknown members never fail a load");
    assert_eq!(c.github_token, "t");
    assert_eq!(c.github_username, "");
}

#[test]
fn whitespace_and_escapes_are_read() {
    let text = " {\n\t\"github_token\" : \"a\\u0041\\n\\t\\\"\\\\b\\/\" }\r\n";
    let c = parse_config(text).expect("escaped record must parse");
    assert_eq!(c.github_token, "aA\n\t\"\\b/");
}

#[test]
fn empty_object_is_the_empty_record() {
    let c = parse_config("{}").expect("an empty object is a record");
    assert_eq!(c.github_token, "");
    assert_eq!(c.github_username, "");
    assert_eq!(c.openai_api_key, "");
}

#[test]
fn control_characters_are_written_as_unicode_escapes() {
    let c = Config {
        github_token: String::from("a\u{1f}b"),
        github_username: String::new(),
        openai_api_key: String::new(),
    };
    let text = encode_config(&c);
    assert!(text.contains("\\u001f"));
    let back = parse_config(&text).unwrap();
    assert_eq!(back.github_token, "a\u{1f}b");
}

#[test]
fn saving_over_a_corrupt_file_starts_fresh() {
    let written = save_credentials(Some("garbage"), "tok", "user");
    assert_eq!(load_token(Some(&written)).unwrap(), "tok");
    assert!(load_openai_api_key(Some(&written)).unwrap().is_none());
}

#[test]
fn unicode_escapes_accept_either_case_of_hex_digit() {
    let c = parse_config("{\"github_token\":\"\\u001F\\u0041\\u00e9\"}").unwrap();
    assert_eq!(c.github_token, "\u{1f}A\u{e9}");
}

#[test]
fn lone_surrogate_escapes_are_corrupt() {
    assert_eq!(load_token(Some("{\"github_token\":\"\\uD800\"}")), Err(ConfigError::Corrupt));
    assert_eq!(load_token(Some("{\"github_token\":\"\\uZZZZ\"}")), Err(ConfigError::Corrupt));
}
