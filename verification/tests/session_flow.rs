use ncb_tts_r2::commands::setup_text_channels;
use ncb_tts_r2::commands::should_read_message;
use ncb_tts_r2::commands::should_restore;
use ncb_tts_r2::commands::SetupMode;
use ncb_tts_r2::dictionary::apply_rules;
use ncb_tts_r2::dictionary::Dictionary;
use ncb_tts_r2::dictionary::Rule;
use ncb_tts_r2::errors::NCBError;
use ncb_tts_r2::gcp::SynthesisInput;
use ncb_tts_r2::instance::TTSInstance;
use ncb_tts_r2::instance::Utterance;
use ncb_tts_r2::monitor::AuditAction;
use ncb_tts_r2::monitor::ConnectionMonitor;
use ncb_tts_r2::monitor::reconnect_step;
use ncb_tts_r2::monitor::ReconnectFollowUp;
use ncb_tts_r2::monitor::ReconnectStep;
use ncb_tts_r2::regex_cache::remove_url;
use ncb_tts_r2::regex_cache::RegexCache;
use ncb_tts_r2::registry::PersistAction;
use ncb_tts_r2::registry::Registry;
use ncb_tts_r2::server_config::ServerConfig;
use ncb_tts_r2::tts::CacheKey;
use ncb_tts_r2::tts::SynthesisBackend;
use ncb_tts_r2::tts::TTS;
use ncb_tts_r2::user_config::UserConfig;
use ncb_tts_r2::voice_state::autostart_plan;
use ncb_tts_r2::voice_state::count_non_bot_members;
use ncb_tts_r2::voice_state::join_announcement;
use ncb_tts_r2::voice_state::leave_announcement;
use ncb_tts_r2::voice_state::move_state;
use ncb_tts_r2::voice_state::ChannelMember;
use ncb_tts_r2::voice_state::VoiceMoveState;
use ncb_tts_r2::voicevox::names_of_speakers;
use ncb_tts_r2::voicevox::styles_of_speakers;
use ncb_tts_r2::voicevox::Speaker;
use ncb_tts_r2::voicevox::Style;
use ncb_tts_r2::voicevox::SupportedFeatures;
use ncb_tts_r2::voicevox::VOICEVOX;

fn literal_rule(id: &str, from: &str, to: &str) -> Rule {
    Rule {
        id: id.to_string(),
        is_regex: false,
        rule: from.to_string(),
        to: to.to_string(),
    }
}

struct SpyBackend {
    calls: usize,
    audio: Vec<u8>,
    requests: Vec<CacheKey>,
}

impl SpyBackend {
    fn new() -> Self {
        SpyBackend { calls: 0, audio: vec![42], requests: Vec::new() }
    }
}

impl SynthesisBackend for SpyBackend {
    fn synthesize_raw(&mut self, request: &CacheKey) -> Result<Vec<u8>, NCBError> {
        self.calls += 1;
        self.requests.push(request.clone());
        Ok(self.audio.clone())
    }

    fn pause(&mut self, _delay_ms: u64) {}
}

#[test]
fn test_dictionary_default_rules() {
    let dict = Dictionary::new();
    assert_eq!(dict.rules.len(), 2);
    assert_eq!(dict.rules[0].id, "url");
    assert!(dict.rules[0].is_regex);
    assert_eq!(dict.rules[0].to, "URL");
    assert_eq!(dict.rules[1].id, "code");
}

#[test]
fn test_apply_rules_literal_order() {
    let mut regexes = RegexCache::new(16);
    let rules = vec![
        literal_rule("first", "abc", "x"),
        literal_rule("second", "x!", "y"),
    ];
    // Later rules see the output of earlier ones.
    let out = apply_rules(&mut regexes, &rules, "abc! abc".to_string());
    assert_eq!(out, "y x");
}

#[test]
fn test_apply_rules_regex_and_invalid() {
    let mut regexes = RegexCache::new(16);
    let rules = vec![
        Rule {
            id: "num".to_string(),
            is_regex: true,
            rule: "[0-9]+".to_string(),
            to: "N".to_string(),
        },
        Rule {
            id: "broken".to_string(),
            is_regex: true,
            rule: "[".to_string(),
            to: "Z".to_string(),
        },
    ];
    // The broken rule is skipped; normalization never fails the pipeline.
    let out = apply_rules(&mut regexes, &rules, "a12b345".to_string());
    assert_eq!(out, "aNbN");
}

#[test]
fn test_apply_rules_idempotent_literals() {
    let mut regexes = RegexCache::new(16);
    let rules = vec![
        literal_rule("a", "foo", "bar"),
        literal_rule("b", "baz", "qux"),
    ];
    let once = apply_rules(&mut regexes, &rules, "foo baz foo".to_string());
    assert_eq!(once, "bar qux bar");
    let twice = apply_rules(&mut regexes, &rules, once.clone());
    assert_eq!(twice, once);
}

#[test]
fn test_remove_url_replaces_links_and_code() {
    let out = remove_url("see https://example.com/x now".to_string());
    assert_eq!(out, "see  URL  now");
}

#[test]
fn test_regex_cache_reuses_compilations() {
    let mut cache = RegexCache::new(16);
    let pattern = r"[a-zA-Z]+";
    let result1 = cache.get_cached_regex(pattern);
    assert!(result1.is_ok());

    let result2 = cache.get_cached_regex(pattern);
    assert!(result2.is_ok());

    let regex1 = result1.unwrap();
    let regex2 = result2.unwrap();
    assert!(regex1.is_match("hello"));
    assert!(regex2.is_match("world"));
}

#[test]
fn test_regex_cache_invalid_pattern() {
    let mut cache = RegexCache::new(16);
    let result = cache.get_cached_regex(r"[");
    assert!(result.is_err());

    if let Err(NCBError::InvalidRegex(msg)) = result {
        assert!(msg.contains("["));
    } else {
        panic!("Expected InvalidRegex error");
    }
}

#[test]
fn test_parse_same_speaker_elision() {
    let mut inst = TTSInstance::new_single(10, 20, 30);
    let cfg = ServerConfig::default_config();
    let mut regexes = RegexCache::new(16);

    let first = inst.parse(
        &Utterance::UserMessage {
            author_id: 1,
            author_name: "alice".to_string(),
            content: "hello".to_string(),
            attachments: 0,
        },
        &cfg,
        &mut regexes,
    );
    assert_eq!(first, "aliceさんの発言<break time=\"200ms\"/>hello");
    assert_eq!(inst.before_message, Some(1));

    // Same speaker again: no announcement prefix.
    let second = inst.parse(
        &Utterance::UserMessage {
            author_id: 1,
            author_name: "alice".to_string(),
            content: "world".to_string(),
            attachments: 0,
        },
        &cfg,
        &mut regexes,
    );
    assert_eq!(second, "world");

    // A different speaker is announced.
    let third = inst.parse(
        &Utterance::UserMessage {
            author_id: 2,
            author_name: "bob".to_string(),
            content: "hi".to_string(),
            attachments: 0,
        },
        &cfg,
        &mut regexes,
    );
    assert_eq!(third, "bobさんの発言<break time=\"200ms\"/>hi");
}

#[test]
fn test_parse_announcement_resets_speaker_memory() {
    let mut inst = TTSInstance::new_single(10, 20, 30);
    let cfg = ServerConfig::default_config();
    let mut regexes = RegexCache::new(16);

    let _ = inst.parse(
        &Utterance::UserMessage {
            author_id: 1,
            author_name: "alice".to_string(),
            content: "hello".to_string(),
            attachments: 0,
        },
        &cfg,
        &mut regexes,
    );
    assert_eq!(inst.before_message, Some(1));

    let notice = inst.parse(
        &Utterance::Announcement { text: "someone joined".to_string() },
        &cfg,
        &mut regexes,
    );
    assert_eq!(notice, "<speak>アナウンス<break time=\"200ms\"/>someone joined</speak>");
    assert_eq!(inst.before_message, None);

    // After the announcement, even the same speaker is announced again.
    let again = inst.parse(
        &Utterance::UserMessage {
            author_id: 1,
            author_name: "alice".to_string(),
            content: "back".to_string(),
            attachments: 0,
        },
        &cfg,
        &mut regexes,
    );
    assert_eq!(again, "aliceさんの発言<break time=\"200ms\"/>back");
}

#[test]
fn test_parse_respects_read_username_toggle() {
    let mut inst = TTSInstance::new_single(10, 20, 30);
    let mut cfg = ServerConfig::default_config();
    cfg.read_username = Some(false);
    let mut regexes = RegexCache::new(16);

    let first = inst.parse(
        &Utterance::UserMessage {
            author_id: 1,
            author_name: "alice".to_string(),
            content: "hello".to_string(),
            attachments: 0,
        },
        &cfg,
        &mut regexes,
    );
    assert_eq!(first, "hello");
}

#[test]
fn test_parse_appends_attachment_notice() {
    let mut inst = TTSInstance::new_single(10, 20, 30);
    let cfg = ServerConfig::default_config();
    let mut regexes = RegexCache::new(16);

    let text = inst.parse(
        &Utterance::UserMessage {
            author_id: 1,
            author_name: "alice".to_string(),
            content: "look".to_string(),
            attachments: 2,
        },
        &cfg,
        &mut regexes,
    );
    assert_eq!(
        text,
        "aliceさんの発言<break time=\"200ms\"/>look<break time=\"200ms\"/>2個の添付ファイル"
    );
}

#[test]
fn test_text_channel_membership() {
    let mut inst = TTSInstance::new_single(10, 20, 30);
    assert!(inst.contains_text_channel(10));
    assert!(!inst.contains_text_channel(11));

    inst.add_text_channel(11);
    inst.add_text_channel(11);
    assert_eq!(inst.get_text_channels().len(), 2);

    assert!(inst.remove_text_channel(10));
    assert!(!inst.remove_text_channel(10));
    assert_eq!(inst.get_text_channels(), &vec![11]);
}

#[test]
fn test_registry_durability_roundtrip() {
    let mut registry = Registry::new();
    let inst = TTSInstance::new_single(1, 2, 7);

    assert!(!registry.contains(7));
    let action = registry.setup(7, inst.clone()).unwrap();
    assert_eq!(action, PersistAction::SaveInstance { guild_id: 7 });
    assert!(registry.contains(7));
    assert_eq!(registry.guild_ids(), vec![7]);

    // A second setup for the same guild is refused unchanged.
    assert!(registry.setup(7, inst).is_err());
    assert_eq!(registry.len(), 1);

    let removed = registry.remove(7);
    assert_eq!(removed, Some(PersistAction::RemoveInstance { guild_id: 7 }));
    assert!(!registry.contains(7));
    assert!(registry.guild_ids().is_empty());
    assert_eq!(registry.remove(7), None);
}

#[test]
fn test_move_state_classification() {
    // A fresh state entering the watched channel is a join.
    assert_eq!(move_state(Some(5), None, 5), VoiceMoveState::JOIN);
    assert_eq!(move_state(Some(6), None, 5), VoiceMoveState::NONE);
    // Moving between channels joins only when the target is entered.
    assert_eq!(move_state(Some(5), Some(Some(4)), 5), VoiceMoveState::JOIN);
    assert_eq!(move_state(Some(4), Some(Some(4)), 5), VoiceMoveState::NONE);
    // Dropping the connection from the watched channel is a leave.
    assert_eq!(move_state(None, Some(Some(5)), 5), VoiceMoveState::LEAVE);
    assert_eq!(move_state(None, Some(Some(4)), 5), VoiceMoveState::NONE);
}

#[test]
fn test_announcement_texts() {
    assert_eq!(join_announcement("alice"), "alice さんが通話に参加しました");
    assert_eq!(leave_announcement("bob"), "bob さんが通話から退出しました");
}

#[test]
fn test_setup_text_channel_modes() {
    assert_eq!(setup_text_channels(SetupMode::TextChannel, 1, 2, None), vec![1]);
    assert_eq!(setup_text_channels(SetupMode::NewThread, 1, 2, Some(3)), vec![3]);
    assert_eq!(setup_text_channels(SetupMode::VoiceChannel, 1, 2, None), vec![2]);
    assert_eq!(setup_text_channels(SetupMode::Default, 1, 2, None), vec![1, 2]);
    assert_eq!(setup_text_channels(SetupMode::Default, 2, 2, None), vec![2]);
}

#[test]
fn test_should_read_message_guards() {
    assert!(should_read_message(false, true, true, "hello"));
    assert!(!should_read_message(true, true, true, "hello"));
    assert!(!should_read_message(false, false, true, "hello"));
    assert!(!should_read_message(false, true, false, "hello"));
    assert!(!should_read_message(false, true, true, ";command"));
    assert!(should_read_message(false, true, true, ""));
}

#[test]
fn test_monitor_backoff_and_eviction() {
    let mut monitor = ConnectionMonitor::new();

    // Healthy sessions are left alone.
    assert_eq!(monitor.audit(7, true, true), AuditAction::Healthy);

    // First reconnection attempt comes without backoff.
    assert_eq!(monitor.audit(7, false, true), AuditAction::Reconnect { backoff_ms: 0 });
    assert_eq!(monitor.on_reconnect_result(7, false), ReconnectFollowUp::RetryLater);

    // The second and third retries back off exponentially.
    assert_eq!(monitor.audit(7, false, true), AuditAction::Reconnect { backoff_ms: 4000 });
    assert_eq!(monitor.on_reconnect_result(7, false), ReconnectFollowUp::RetryLater);
    assert_eq!(monitor.audit(7, false, true), AuditAction::Reconnect { backoff_ms: 8000 });
    assert_eq!(monitor.on_reconnect_result(7, false), ReconnectFollowUp::Evict);

    // A success resets the budget.
    assert_eq!(monitor.audit(8, false, true), AuditAction::Reconnect { backoff_ms: 0 });
    assert_eq!(monitor.on_reconnect_result(8, true), ReconnectFollowUp::Notify);
    assert_eq!(monitor.audit(8, false, true), AuditAction::Reconnect { backoff_ms: 0 });
}

#[test]
fn test_monitor_evicts_empty_channel() {
    let mut monitor = ConnectionMonitor::new();
    assert_eq!(monitor.audit(7, false, false), AuditAction::Evict);
}

#[test]
fn test_reconnect_step_decisions() {
    assert_eq!(reconnect_step(true, false, false, None), ReconnectStep::AlreadyConnected);
    assert_eq!(reconnect_step(false, false, false, None), ReconnectStep::JoinFailed);
    assert_eq!(reconnect_step(false, true, false, Some(0)), ReconnectStep::LeaveEmpty);
    assert_eq!(reconnect_step(false, true, true, Some(0)), ReconnectStep::Connected);
    assert_eq!(reconnect_step(false, true, false, Some(2)), ReconnectStep::Connected);
    assert_eq!(reconnect_step(false, true, false, None), ReconnectStep::Connected);
}

#[test]
fn test_should_restore_occupancy() {
    assert!(should_restore(Some(1)));
    assert!(!should_restore(Some(0)));
    assert!(!should_restore(None));
}

#[test]
fn test_speaker_catalogue_transforms() {
    let speakers = vec![
        Speaker {
            supported_features: SupportedFeatures {
                permitted_synthesis_morphing: "ALL".to_string(),
            },
            name: "ずんだもん".to_string(),
            speaker_uuid: "u1".to_string(),
            styles: vec![
                Style { name: "ノーマル".to_string(), id: 3 },
                Style { name: "あまあま".to_string(), id: 1 },
            ],
            version: "1".to_string(),
        },
        Speaker {
            supported_features: SupportedFeatures {
                permitted_synthesis_morphing: "ALL".to_string(),
            },
            name: "四国めたん".to_string(),
            speaker_uuid: "u2".to_string(),
            styles: vec![Style { name: "ノーマル".to_string(), id: 2 }],
            version: "1".to_string(),
        },
    ];

    let styles = styles_of_speakers(&speakers);
    assert_eq!(
        styles,
        vec![
            ("ずんだもん - ノーマル".to_string(), 3),
            ("ずんだもん - あまあま".to_string(), 1),
            ("四国めたん - ノーマル".to_string(), 2),
        ]
    );

    let names = names_of_speakers(&speakers);
    assert_eq!(names, vec!["ずんだもん".to_string(), "四国めたん".to_string()]);
}

#[test]
fn test_config_defaults() {
    let server = ServerConfig::or_default(None);
    assert_eq!(server.voice_state_announce, Some(true));
    assert_eq!(server.read_username, Some(true));
    assert_eq!(server.autostart_channel_id, None);
    assert_eq!(server.dictionary.rules.len(), 2);

    let user = UserConfig::or_default(None);
    assert_eq!(user.tts_type, Some(ncb_tts_r2::tts_type::TTSType::GCP));
    assert_eq!(user.voicevox_speaker, Some(1));
    let voice = user.gcp_tts_voice.unwrap();
    assert_eq!(voice.languageCode, "ja-JP");
    assert_eq!(voice.name, "ja-JP-Wavenet-B");
    assert_eq!(voice.ssmlGender, "neutral");
}

#[test]
fn test_end_to_end_session_lifecycle() {
    // Guild 7 has no session; a user joins the configured autostart
    // channel 100.
    let mut registry = Registry::new();
    let mut cfg = ServerConfig::default_config();
    cfg.autostart_channel_id = Some(100);

    let plan = autostart_plan(&cfg, registry.contains(7), Some(100)).unwrap();
    assert_eq!(plan.voice_channel, 100);
    assert_eq!(plan.text_channels, vec![100]);

    let inst = TTSInstance::new(plan.text_channels.clone(), plan.voice_channel, 7);
    let action = registry.setup(7, inst).unwrap();
    assert_eq!(action, PersistAction::SaveInstance { guild_id: 7 });
    assert!(registry.contains(7));

    // The welcome notice is synthesized and enqueued.
    let mut tts = TTS::new(VOICEVOX::new(None, None));
    let mut backend = SpyBackend::new();
    let mut regexes = RegexCache::new(16);
    let ucfg = UserConfig::default_config();
    let mut session = registry.get(7).unwrap().clone();

    let notice = session.read(
        &Utterance::Announcement { text: "welcome".to_string() },
        &cfg,
        &ucfg,
        &mut regexes,
        &mut tts,
        &mut backend,
        0,
    );
    assert_eq!(notice.tracks.len(), 1);
    assert_eq!(backend.calls, 1);

    // The user sends "hello" in the bound text channel.
    assert!(should_read_message(false, registry.contains(7), session.contains_text_channel(100), "hello"));
    let first = session.read(
        &Utterance::UserMessage {
            author_id: 1,
            author_name: "alice".to_string(),
            content: "hello".to_string(),
            attachments: 0,
        },
        &cfg,
        &ucfg,
        &mut regexes,
        &mut tts,
        &mut backend,
        10,
    );
    assert_eq!(first.tracks.len(), 1);
    assert_eq!(backend.calls, 2);
    assert_eq!(session.before_message, Some(1));
    match backend.requests.last().unwrap() {
        CacheKey::GCP(SynthesisInput { ssml: Some(ssml), .. }, _) => {
            assert!(ssml.contains("さんの発言"));
        }
        other => panic!("unexpected request: {:?}", other),
    }

    // The same user sends "world": synthesized once more, no prefix.
    let second = session.read(
        &Utterance::UserMessage {
            author_id: 1,
            author_name: "alice".to_string(),
            content: "world".to_string(),
            attachments: 0,
        },
        &cfg,
        &ucfg,
        &mut regexes,
        &mut tts,
        &mut backend,
        20,
    );
    assert_eq!(second.tracks.len(), 1);
    assert_eq!(backend.calls, 3);
    match backend.requests.last().unwrap() {
        CacheKey::GCP(SynthesisInput { ssml: Some(ssml), .. }, _) => {
            assert_eq!(ssml, "<speak>world</speak>");
        }
        other => panic!("unexpected request: {:?}", other),
    }
    registry.replace(7, session);

    // The last human member leaves the voice channel; the monitor's next
    // tick finds the channel empty and evicts the session.
    let members = vec![ChannelMember { is_bot: true }];
    let occupants = count_non_bot_members(&members);
    assert_eq!(occupants, 0);

    let mut monitor = ConnectionMonitor::new();
    let verdict = monitor.audit(7, false, occupants > 0);
    assert_eq!(verdict, AuditAction::Evict);

    let persist = registry.remove(7);
    assert_eq!(persist, Some(PersistAction::RemoveInstance { guild_id: 7 }));
    assert!(!registry.contains(7));
    assert!(registry.guild_ids().is_empty());
}

#[test]
fn test_regex_cache_enforces_compile_path_checks() {
    let mut cache = RegexCache::new(16);
    // A real non-capturing group is refused by the blocklist even though
    // it compiles.
    let blocked = cache.get_cached_regex("(?:ab)+c");
    assert!(matches!(blocked, Err(NCBError::InvalidRegex(_))));
    // An over-long pattern is refused before compilation.
    let long_pattern = "a".repeat(101);
    assert!(cache.get_cached_regex(&long_pattern).is_err());
    // A refused pattern is never cached: a later valid request still works.
    assert!(cache.get_cached_regex("[0-9]+").is_ok());
}

#[test]
fn test_apply_rules_skips_blocklisted_pattern() {
    let mut regexes = RegexCache::new(16);
    let rules = vec![Rule {
        id: "look".to_string(),
        is_regex: true,
        rule: "(?:a)b".to_string(),
        to: "X".to_string(),
    }];
    // The blocklisted rule is skipped; the text passes through unchanged.
    let out = apply_rules(&mut regexes, &rules, "ab".to_string());
    assert_eq!(out, "ab");
}
