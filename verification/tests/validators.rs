use ncb_tts_r2::constants;
use ncb_tts_r2::database;
use ncb_tts_r2::errors::NCBError;
use ncb_tts_r2::validation::sanitize_ssml;
use ncb_tts_r2::validation::validate_regex_pattern;
use ncb_tts_r2::validation::validate_replacement_text;
use ncb_tts_r2::validation::validate_rule_name;
use ncb_tts_r2::validation::validate_tts_text;

#[test]
fn test_database_constants() {
    assert!(constants::REDIS_CONNECTION_TIMEOUT_SECS > 0);
    assert!(constants::REDIS_MAX_CONNECTIONS > 0);
    assert!(constants::REDIS_MIN_IDLE_CONNECTIONS <= constants::REDIS_MAX_CONNECTIONS);
}

#[test]
fn test_key_generation() {
    let guild_id = 123456789u64;
    let user_id = 987654321u64;

    let tts_key = database::tts_instance_key(guild_id);
    assert!(tts_key.contains(&guild_id.to_string()));

    let list_key = database::tts_instances_list_key();
    assert!(!list_key.is_empty());

    let user_key = database::user_config_key(guild_id, user_id);
    assert_eq!(user_key, "user:config:123456789:987654321");

    let server_key = database::server_config_key(guild_id);
    assert_eq!(server_key, "server:config:123456789");

    let dict_key = database::dictionary_key(guild_id);
    assert_eq!(dict_key, "dictionary:123456789");
}

#[test]
fn test_ncb_error_creation() {
    let config_error = NCBError::config("Test config error");
    assert!(matches!(config_error, NCBError::Config(_)));
    assert_eq!(config_error.message(), "Configuration error: Test config error");

    let database_error = NCBError::database("Test database error");
    assert!(matches!(database_error, NCBError::Database(_)));
    assert_eq!(database_error.message(), "Database error: Test database error");

    let voicevox_error = NCBError::voicevox("Test VOICEVOX error");
    assert!(matches!(voicevox_error, NCBError::VOICEVOX(_)));
    assert_eq!(voicevox_error.message(), "VOICEVOX API error: Test VOICEVOX error");
}

#[test]
fn test_tts_instance_not_found_error() {
    let guild_id = 12345u64;
    let error = NCBError::tts_instance_not_found(guild_id);
    assert!(matches!(error, NCBError::TTSInstanceNotFound { guild_id: 12345 }));
    assert_eq!(error.message(), "TTS instance not found for guild 12345");
}

#[test]
fn test_text_too_long_error() {
    let max_length = 500;
    let error = NCBError::text_too_long(max_length);
    assert!(matches!(error, NCBError::TextTooLong { max_length: 500 }));
    assert_eq!(error.message(), "Text too long (max 500 characters)");
}

#[test]
fn test_validate_regex_pattern_valid() {
    assert!(validate_regex_pattern(r"[a-zA-Z]+").is_ok());
    assert!(validate_regex_pattern(r"\d{1,3}").is_ok());
    assert!(validate_regex_pattern(r"hello|world").is_ok());
}

#[test]
fn test_validate_regex_pattern_redos() {
    let very_long_pattern = "a".repeat(constants::MAX_REGEX_PATTERN_LENGTH + 1);
    assert!(validate_regex_pattern(&very_long_pattern).is_err());

    assert!(validate_regex_pattern(r"[a-z]+").is_ok());
    assert!(validate_regex_pattern(r"\d{1,3}").is_ok());
}

#[test]
fn test_validate_regex_pattern_too_long() {
    let long_pattern = "a".repeat(constants::MAX_REGEX_PATTERN_LENGTH + 1);
    assert!(validate_regex_pattern(&long_pattern).is_err());
}

#[test]
fn test_validate_regex_pattern_invalid_syntax() {
    assert!(validate_regex_pattern(r"[").is_err());
    assert!(validate_regex_pattern(r"*").is_err());
    assert!(validate_regex_pattern(r"(?P<>)").is_err());
}

#[test]
fn test_validate_rule_name_valid() {
    assert!(validate_rule_name("test_rule").is_ok());
    assert!(validate_rule_name("Test Rule 123").is_ok());
    assert!(validate_rule_name("rule-name").is_ok());
}

#[test]
fn test_validate_rule_name_empty() {
    assert!(validate_rule_name("").is_err());
    assert!(validate_rule_name("   ").is_err());
}

#[test]
fn test_validate_rule_name_too_long() {
    let long_name = "a".repeat(constants::MAX_RULE_NAME_LENGTH + 1);
    assert!(validate_rule_name(&long_name).is_err());
}

#[test]
fn test_validate_rule_name_invalid_chars() {
    assert!(validate_rule_name("rule@name").is_err());
    assert!(validate_rule_name("rule#name").is_err());
    assert!(validate_rule_name("rule$name").is_err());
}

#[test]
fn test_validate_tts_text_valid() {
    assert!(validate_tts_text("Hello world").is_ok());
    assert!(validate_tts_text("こんにちは").is_ok());
    assert!(validate_tts_text("Test with numbers 123").is_ok());
}

#[test]
fn test_validate_tts_text_empty() {
    assert!(validate_tts_text("").is_err());
    assert!(validate_tts_text("   ").is_err());
}

#[test]
fn test_validate_tts_text_too_long() {
    let long_text = "a".repeat(constants::MAX_TTS_TEXT_LENGTH + 1);
    assert!(validate_tts_text(&long_text).is_err());
}

#[test]
fn test_validate_tts_text_prohibited_content() {
    assert!(validate_tts_text("<script>alert('xss')</script>").is_err());
    assert!(validate_tts_text("javascript:alert('xss')").is_err());
    assert!(validate_tts_text("data:text/html,<h1>XSS</h1>").is_err());
    assert!(validate_tts_text("<?xml version=\"1.0\"?>").is_err());
}

#[test]
fn test_sanitize_ssml() {
    let input = "<script>alert('xss')</script>Hello world";
    let output = sanitize_ssml(input);
    assert!(!output.contains("<script"));
    assert!(output.contains("&lt;script"));
    assert!(output.contains("Hello world"));

    let input_with_js = "javascript:alert('test')Hello";
    let output = sanitize_ssml(input_with_js);
    assert!(!output.contains("javascript:"));
    assert!(output.contains("Hello"));

    let long_input = "a".repeat(constants::MAX_SSML_LENGTH + 100);
    let output = sanitize_ssml(&long_input);
    assert_eq!(output.len(), constants::MAX_SSML_LENGTH);
}

#[test]
fn test_validate_replacement_text_rules() {
    assert!(validate_replacement_text("URL").is_ok());
    assert!(validate_replacement_text("   ").is_err());
    let long_text = "b".repeat(constants::MAX_TTS_TEXT_LENGTH + 1);
    let result = validate_replacement_text(&long_text);
    assert!(matches!(result, Err(NCBError::TextTooLong { max_length: 500 })));
}

#[test]
fn test_error_message_simple_variants() {
    assert_eq!(NCBError::UserNotInVoiceChannel.message(), "User not in voice channel");
    assert_eq!(NCBError::GuildNotFound.message(), "Guild not found");
    assert_eq!(NCBError::ProhibitedContent.message(), "Text contains prohibited content");
    assert_eq!(
        NCBError::invalid_regex("boom").message(),
        "Invalid regex pattern: boom"
    );
}

#[test]
fn test_u64_rendering_edges() {
    assert_eq!(ncb_tts_r2::text::u64_to_string(0), "0");
    assert_eq!(ncb_tts_r2::text::u64_to_string(7), "7");
    assert_eq!(ncb_tts_r2::text::u64_to_string(10), "10");
    assert_eq!(
        ncb_tts_r2::text::u64_to_string(u64::MAX),
        "18446744073709551615"
    );
}

#[test]
fn test_replace_all_edges() {
    assert_eq!(ncb_tts_r2::text::replace_all("aaa", "aa", "b"), "ba");
    assert_eq!(ncb_tts_r2::text::replace_all("abc", "", "x"), "abc");
    assert_eq!(ncb_tts_r2::text::replace_all("", "a", "x"), "");
    assert_eq!(ncb_tts_r2::text::replace_all("abcabc", "b", "BB"), "aBBcaBBc");
}

#[test]
fn test_truncate_and_lowercase() {
    assert_eq!(ncb_tts_r2::text::truncate_chars("hello", 3), "hel");
    assert_eq!(ncb_tts_r2::text::truncate_chars("hello", 10), "hello");
    assert_eq!(ncb_tts_r2::text::ascii_lowercase("MiXeD 123 ÄÖ"), "mixed 123 ÄÖ");
}

#[test]
fn test_blank_detection_is_unicode() {
    // An ideographic space is whitespace, so text of only such spaces is
    // rejected as blank.
    assert!(validate_tts_text("\u{3000}\u{3000}").is_err());
    assert!(validate_tts_text("\u{3000}こんにちは").is_ok());
}
