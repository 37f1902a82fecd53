use cosmic_applet_ollama::history::{
    history_file_path, join_path, ChatHistory, HistoryMessage, CURRENT_VERSION, MAX_HISTORY_SIZE,
};

fn numbered(count: usize) -> Vec<(String, String)> {
    (0..count)
        .map(|i| ("user".to_string(), format!("Message {}", i)))
        .collect()
}

#[test]
fn test_history_roundtrip() {
    let messages = vec![
        ("user".to_string(), "Hello".to_string()),
        ("assistant".to_string(), "Hi there!".to_string()),
    ];

    let history = ChatHistory::from_messages(messages.clone());
    let restored = history.to_messages();

    assert_eq!(restored, messages);
}

#[test]
fn test_trim_to_limit() {
    let mut history = ChatHistory::new();
    for i in 0..(MAX_HISTORY_SIZE + 50) {
        history.messages.push(HistoryMessage {
            role: "user".to_string(),
            content: format!("Message {}", i),
        });
    }

    history.trim_to_limit();
    assert_eq!(history.messages.len(), MAX_HISTORY_SIZE);

    // Should keep the most recent messages
    assert_eq!(
        history.messages.last().unwrap().content,
        format!("Message {}", MAX_HISTORY_SIZE + 49)
    );
}

#[test]
fn new_history_is_empty_at_current_version() {
    let history = ChatHistory::new();
    assert_eq!(history.version, 1);
    assert_eq!(history.version, CURRENT_VERSION);
    assert!(history.messages.is_empty());
    assert!(history.to_messages().is_empty());
}

#[test]
fn default_history_has_no_version() {
    let history = ChatHistory::default();
    assert_eq!(history.version, 0);
    assert!(history.messages.is_empty());
}

#[test]
fn roundtrip_keeps_order_roles_and_empty_texts() {
    let messages = vec![
        ("system".to_string(), String::new()),
        ("user".to_string(), "first".to_string()),
        ("assistant".to_string(), "second\nline".to_string()),
        ("user".to_string(), "first".to_string()),
        ("anything".to_string(), "roles are not validated".to_string()),
    ];
    let history = ChatHistory::from_messages(messages.clone());
    assert_eq!(history.version, 1);
    assert_eq!(history.messages.len(), 5);
    assert_eq!(history.messages[2].role, "assistant");
    assert_eq!(history.messages[2].content, "second\nline");
    assert_eq!(history.to_messages(), messages);
    assert_eq!(ChatHistory::from_messages(Vec::new()).to_messages(), Vec::new());
}

#[test]
fn trim_keeps_the_last_hundred_in_order() {
    let mut history = ChatHistory::from_messages(numbered(250));
    history.trim_to_limit();
    assert_eq!(history.version, 1);
    assert_eq!(history.to_messages(), numbered(250)[150..].to_vec());
    assert_eq!(history.messages[0].content, "Message 150");
    assert_eq!(history.messages[99].content, "Message 249");
}

#[test]
fn trim_is_idempotent() {
    let mut history = ChatHistory::from_messages(numbered(101));
    history.trim_to_limit();
    let once = history.to_messages();
    assert_eq!(once.len(), 100);
    assert_eq!(once[0].1, "Message 1");
    history.trim_to_limit();
    assert_eq!(history.to_messages(), once);
}

#[test]
fn trim_leaves_short_histories_alone() {
    for count in [0usize, 1, 99, 100] {
        let mut history = ChatHistory::from_messages(numbered(count));
        history.trim_to_limit();
        assert_eq!(history.to_messages(), numbered(count));
    }
}

#[test]
fn trim_keeps_the_version() {
    let mut history = ChatHistory::from_messages(numbered(120));
    history.version = 7;
    history.trim_to_limit();
    assert_eq!(history.version, 7);
    assert_eq!(history.messages.len(), 100);
}

#[test]
fn for_storage_wraps_and_trims() {
    let history = ChatHistory::for_storage(numbered(130));
    assert_eq!(history.version, 1);
    assert_eq!(history.to_messages(), numbered(130)[30..].to_vec());
    let short = ChatHistory::for_storage(numbered(3));
    assert_eq!(short.to_messages(), numbered(3));
}

#[test]
fn recovered_history_defaults_to_empty() {
    let fresh = ChatHistory::recovered(None);
    assert_eq!(fresh.version, 1);
    assert!(fresh.messages.is_empty());

    let mut stored = ChatHistory::from_messages(numbered(2));
    stored.version = 3;
    let kept = ChatHistory::recovered(Some(stored));
    assert_eq!(kept.version, 3);
    assert_eq!(kept.to_messages(), numbered(2));
}

#[test]
fn history_path_prefers_xdg_data_home() {
    assert_eq!(
        history_file_path(Some("/data".to_string()), Some("/home/me".to_string())),
        "/data/cosmic-applet-ollama/history.json"
    );
    assert_eq!(
        history_file_path(Some("/data/".to_string()), None),
        "/data/cosmic-applet-ollama/history.json"
    );
    assert_eq!(
        history_file_path(Some(String::new()), Some("/home/me".to_string())),
        "cosmic-applet-ollama/history.json"
    );
}

#[test]
fn history_path_falls_back_to_home_then_current_directory() {
    assert_eq!(
        history_file_path(None, Some("/home/me".to_string())),
        "/home/me/.local/share/cosmic-applet-ollama/history.json"
    );
    assert_eq!(
        history_file_path(None, None),
        "./.local/share/cosmic-applet-ollama/history.json"
    );
}

#[test]
fn history_path_agrees_with_std_paths() {
    let cases = [
        (Some("/data"), Some("/home/me")),
        (Some("/data/"), None),
        (Some(""), Some("/home/me")),
        (Some("relative/dir"), None),
        (None, Some("/home/me/")),
        (None, Some("")),
        (None, Some("/")),
        (None, None),
    ];
    for (xdg, home) in cases {
        let data_dir = match xdg {
            Some(dir) => std::path::PathBuf::from(dir),
            None => std::path::PathBuf::from(home.unwrap_or(".")).join(".local/share"),
        };
        let expected = data_dir.join("cosmic-applet-ollama").join("history.json");
        let path = history_file_path(xdg.map(String::from), home.map(String::from));
        assert_eq!(path, expected.to_str().unwrap());
    }
}

#[test]
fn join_path_adds_one_separator() {
    assert_eq!(join_path("a", "b"), "a/b");
    assert_eq!(join_path("a/", "b"), "a/b");
    assert_eq!(join_path("", "b"), "b");
    assert_eq!(join_path("/", "b"), "/b");
}
