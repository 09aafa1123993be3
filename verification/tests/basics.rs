//! Texts, numerals, JSON, ordered maps, ids.

use agent_sessions::decimal::{decimal, parse_decimal, signed_decimal};
use agent_sessions::json::{parse_json, try_parse_json, Json, Member};
use agent_sessions::ordered::{less, OrderedMap};
use agent_sessions::sessions::model::{
    dedup, AgentAction, AgentActionId, AgentSessionId, AgentSessionPreview,
    AgentSessionPreviewData, BotId, MacroUserId, QueuedActionDto, QueuedControl, ReplicaAddress,
    ReplicaId, SessionStatus,
};
use agent_sessions::text::{
    chars_of, collapse_whitespace, contains, ends_with, is_white_space, join, mentions_cursor,
    same_text, split_words, starts_with, strip_padding, strip_prefix, strip_suffix, strip_suffixes,
};

#[test]
fn prefixes_and_suffixes() {
    assert_eq!(strip_prefix("crsr_x", "crsr_"), Some("x"));
    assert_eq!(strip_prefix("x", "crsr_"), None);
    assert_eq!(strip_suffix("a.git", ".git"), Some("a"));
    assert_eq!(strip_suffix("a", ".git"), None);
    assert_eq!(strip_suffixes("a///", "/"), "a");
    assert!(starts_with("abc", "ab") && ends_with("abc", "bc") && contains("abc", "b"));
    assert!(!starts_with("a", "ab") && !ends_with("a", "bc") && !contains("abc", "ac"));
    assert!(contains("abc", ""));
    assert!(same_text("é", "é") && !same_text("e", "é"));
    assert_eq!(chars_of("aé"), vec!['a', 'é']);
}

#[test]
fn white_space() {
    assert!(is_white_space(' ') && is_white_space('\u{3000}') && !is_white_space('x'));
    assert_eq!(split_words("  a b\n\tc "), vec!["a", "b", "c"]);
    assert_eq!(collapse_whitespace("  a b\n\tc "), "a b c");
    assert_eq!(collapse_whitespace(&collapse_whitespace("  a b\n\tc ")), "a b c");
    assert_eq!(collapse_whitespace(" \n"), "");
    assert_eq!(join(&vec!["a".to_owned(), "b".to_owned()], ", "), "a, b");
    assert_eq!(join(&Vec::new(), ", "), "");
    assert_eq!(strip_padding(" '\"x\" '\n"), "x");
    assert!(mentions_cursor("xCuRsOrx") && !mentions_cursor("curso"));
}

#[test]
fn numerals_read_back() {
    for number in [0, 7, 10, 4_711, u64::MAX] {
        assert_eq!(decimal(number), number.to_string());
        assert_eq!(parse_decimal(&decimal(number)), Some(number));
    }
    for (text, number) in [
        ("+5", Some(5)),
        ("007", Some(7)),
        ("", None),
        ("+", None),
        ("-1", None),
        ("1 ", None),
        ("18446744073709551616", None),
    ] {
        assert_eq!(parse_decimal(text), number, "{text:?}");
        assert_eq!(text.parse::<u64>().ok(), number, "{text:?}");
    }
    for number in [i64::MIN, -1, 0, 1, i64::MAX] {
        assert_eq!(signed_decimal(number), number.to_string());
    }
}

#[test]
fn json_is_read_as_plain_data() {
    let json = parse_json(r#"{"a": [1, -1, 1.5, true, null, "x"], "b": {"c": "d"}}"#).unwrap();
    assert_eq!(
        *json.get("a").unwrap(),
        Json::Array(vec![
            Json::Number(Some(1)),
            Json::Number(None),
            Json::Number(None),
            Json::Bool(true),
            Json::Null,
            Json::Text("x".to_owned()),
        ])
    );
    assert_eq!(json.get("b").unwrap().text_member("c").as_deref(), Some("d"));
    assert_eq!(
        *json.get("b").unwrap(),
        Json::Object(vec![Member { name: "c".to_owned(), value: Json::Text("d".to_owned()) }])
    );
    assert_eq!(json.get("z"), None);
    assert_eq!(Json::Null.get("a"), None);
    assert_eq!(Json::Bool(true).as_text(), None);
    assert!(parse_json("{").is_none());
    let words = try_parse_json("{").unwrap_err();
    assert_eq!(
        words,
        serde_json::from_str::<serde_json::Value>("{").unwrap_err().to_string()
    );
}

#[test]
fn ordered_maps_keep_their_keys_in_order() {
    let mut map: OrderedMap<u8> = OrderedMap::new();
    assert!(map.is_empty());
    assert_eq!(map.len(), 0);
    for (key, value) in [("b", 1), ("a", 2), ("é", 3), ("b", 4), ("aa", 5)] {
        map.insert(key.to_owned(), value);
    }
    let keys: Vec<&str> = (0..map.len()).map(|at| map.key(at).as_str()).collect();
    assert_eq!(keys, vec!["a", "aa", "b", "é"]);
    assert_eq!(map.at(2).value, 4);
    assert!(less("a", "b") && less("a", "aa") && !less("b", "a") && !less("a", "a"));
}

#[test]
fn identities_read_back() {
    let first = ReplicaId::mint();
    let second = ReplicaId::mint();
    assert_ne!(first, second);
    for minted in [first, second] {
        let id = minted.as_uuid();
        assert_eq!(id & 0xf000_c000_0000_0000_0000, 0x4000_8000_0000_0000_0000);
        assert_eq!(uuid::Uuid::from_u128(id).get_version_num(), 4);
        assert_eq!(uuid::Uuid::from_u128(id).get_variant(), uuid::Variant::RFC4122);
    }
    assert_eq!(ReplicaId::from_uuid(first.as_uuid()), first);
    assert_eq!(ReplicaAddress::new("10.0.0.1:80".to_owned()).as_str(), "10.0.0.1:80");
    assert_eq!(AgentSessionId::new_from_uuid(7).as_uuid(), 7);
}

#[test]
fn the_first_mention_of_a_user_stays() {
    let user = |id: &str| MacroUserId::new(id);
    assert_eq!(
        dedup(&vec![user("a"), user("b"), user("a"), user("c"), user("b")]),
        vec![user("a"), user("b"), user("c")]
    );
    assert!(dedup(&Vec::new()).is_empty());
}

#[test]
fn a_queued_action_tells_its_prompt_only_when_it_is_one() {
    let queued = |action: AgentAction| QueuedControl {
        action_id: AgentActionId { value: 3 },
        action,
        actor: Some(MacroUserId::new("macro|a@b.c")),
        created_at_millis: -5,
    };
    let dto = QueuedActionDto::from_queued(queued(AgentAction::Prompt { prompt: "go".to_owned() }));
    assert_eq!(dto.kind, "prompt");
    assert_eq!(dto.prompt.as_deref(), Some("go"));
    assert_eq!(dto.actor_user_id.as_deref(), Some("macro|a@b.c"));
    assert_eq!(dto.created_at_millis, -5);
    let dto = QueuedActionDto::from_queued(queued(AgentAction::Other { kind: "stop".to_owned() }));
    assert_eq!(dto.kind, "stop");
    assert_eq!(dto.prompt, None);
}

#[test]
fn a_preview_names_its_session_whatever_the_viewer_may_see() {
    let id = AgentSessionId::new_from_uuid(9);
    let seen = AgentSessionPreviewData {
        id,
        name: "Fix the flaky test".to_owned(),
        owner_id: MacroUserId::new("macro|o@macro.com"),
        bot_id: BotId { value: 1 },
        status: SessionStatus::default(),
        created_at_millis: 1,
        modified_at_millis: 2,
    };
    assert_eq!(seen.status.as_str(), "no_messages");
    assert_eq!(SessionStatus::Event("{}".to_owned()).as_str(), "event");
    assert_eq!(SessionStatus::Disconnected.as_str(), "disconnected");
    assert_eq!(AgentSessionPreview::Access(seen).id(), id);
    assert_eq!(AgentSessionPreview::NoAccess(id).id(), id);
    assert_eq!(AgentSessionPreview::DoesNotExist(id).id(), id);
}
