use cosmic_applet_ollama::ollama::{
    available_models, chat_reply, check_status, format_size, model_list, tags_url, AvailableModel,
    ChatResponse, Client, Failure, Message, ModelInfo, TagsResponse, DEFAULT_SYSTEM_PROMPT, GIB,
    MIB,
};

fn pairs(items: &[(&str, &str)]) -> Vec<(String, String)> {
    items
        .iter()
        .map(|(role, content)| (role.to_string(), content.to_string()))
        .collect()
}

/// The size as the quotient of two doubles is printed.
fn printed(bytes: u64) -> String {
    if bytes >= GIB {
        format!("{:.1} GB", bytes as f64 / GIB as f64)
    } else {
        format!("{:.0} MB", bytes as f64 / MIB as f64)
    }
}

#[test]
fn size_formatting_boundary() {
    assert_eq!(format_size(1024 * 1024 * 1024), "1.0 GB");
    assert_eq!(format_size(1024 * 1024 * 1024 - 1), "1024 MB");
}

#[test]
fn sizes_of_common_models() {
    assert_eq!(format_size(0), "0 MB");
    assert_eq!(format_size(1), "0 MB");
    assert_eq!(format_size(1024 * 1024), "1 MB");
    assert_eq!(format_size(500 * 1024 * 1024), "500 MB");
    assert_eq!(format_size(2 * 1024 * 1024 * 1024), "2.0 GB");
    assert_eq!(format_size(2_019_393_189), "1.9 GB");
    assert_eq!(format_size(4_661_224_676), "4.3 GB");
    assert_eq!(format_size(42_520_413_916), "39.6 GB");
}

#[test]
fn sizes_round_to_nearest_with_ties_to_even() {
    // half a mebibyte up or down
    assert_eq!(format_size(MIB / 2), "0 MB");
    assert_eq!(format_size(MIB / 2 + 1), "1 MB");
    assert_eq!(format_size(MIB + MIB / 2), "2 MB");
    assert_eq!(format_size(2 * MIB + MIB / 2), "2 MB");
    assert_eq!(format_size(2 * MIB + MIB / 2 + 1), "3 MB");
    // 1.25 and 1.75 gibibytes lie half way between two tenths
    assert_eq!(format_size(GIB + GIB / 4), "1.2 GB");
    assert_eq!(format_size(GIB + GIB / 4 + 1), "1.3 GB");
    assert_eq!(format_size(GIB + 3 * (GIB / 4)), "1.8 GB");
    assert_eq!(format_size(GIB + 3 * (GIB / 4) - 1), "1.7 GB");
    // rounding up carries into the whole number
    assert_eq!(format_size(2 * GIB - 1), "2.0 GB");
    assert_eq!(format_size(10 * GIB - 1), "10.0 GB");
}

#[test]
fn sizes_beyond_exact_doubles() {
    assert_eq!(format_size(u64::MAX), "17179869184.0 GB");
    assert_eq!(format_size(1 << 63), "8589934592.0 GB");
    assert_eq!(format_size(1 << 53), "8388608.0 GB");
}

#[test]
fn sizes_agree_with_the_printed_quotient() {
    let mut values: Vec<u64> = vec![0, 1, MIB - 1, MIB, GIB - 1, GIB, GIB + 1, u64::MAX];
    for shift in 0..64 {
        let power = 1u64 << shift;
        for delta in [0u64, 1, 2, 3, 1023, 1024, 1025] {
            values.push(power.wrapping_add(delta));
            values.push(power.wrapping_sub(delta));
            values.push(power.wrapping_add(power / 2).wrapping_add(delta));
            values.push(power.wrapping_add(power / 2).wrapping_sub(delta));
        }
    }
    for quarter in 0..200u64 {
        values.push(quarter * (GIB / 4));
        values.push(quarter * (GIB / 20));
        values.push(quarter * (MIB / 2));
        values.push(quarter * (MIB / 2) + 1);
    }
    // ties of the rounding to 53 significant digits, up to the largest sizes
    for shift in 1..11 {
        let unit = 1u64 << shift;
        let base = 1u64 << (52 + shift);
        for step in [0u64, 1, 2, 3, 4, 5, 1000, 1001] {
            values.push(base + step * unit + unit / 2);
            values.push(base + step * unit + unit / 2 + 1);
            values.push(base + step * unit + unit / 2 - 1);
        }
    }
    let mut state: u64 = 0x2545_f491_4f6c_dd1d;
    for _ in 0..20_000 {
        state ^= state << 13;
        state ^= state >> 7;
        state ^= state << 17;
        values.push(state);
        values.push(state >> 20);
        values.push(state >> 33);
    }
    for bytes in values {
        assert_eq!(format_size(bytes), printed(bytes), "size of {}", bytes);
    }
}

#[test]
fn tags_url_replaces_the_chat_endpoints() {
    assert_eq!(
        tags_url("http://localhost:11434/api/chat"),
        "http://localhost:11434/api/tags"
    );
    assert_eq!(
        tags_url("http://localhost:11434/api/generate"),
        "http://localhost:11434/api/tags"
    );
    assert_eq!(
        tags_url("http://host/api/chat/api/generate"),
        "http://host/api/tags/api/tags"
    );
}

#[test]
fn tags_url_passes_other_urls_through() {
    assert_eq!(tags_url("http://localhost:11434/"), "http://localhost:11434/");
    assert_eq!(tags_url("http://host/api/tags"), "http://host/api/tags");
    assert_eq!(tags_url("http://host/api/cha"), "http://host/api/cha");
    assert_eq!(tags_url(""), "");
}

#[test]
fn tags_url_agrees_with_std_replace() {
    for url in [
        "http://localhost:11434/api/chat",
        "http://a/api/chat?x=/api/generate",
        "/api/chat/api/chat",
        "/api/generat/api/generate",
        "/api//api/chat",
        "plain",
    ] {
        let expected = url
            .replace("/api/chat", "/api/tags")
            .replace("/api/generate", "/api/tags");
        assert_eq!(tags_url(url), expected);
    }
}

#[test]
fn system_message_has_the_system_role() {
    let message = Message::system("Be brief.".to_string());
    assert_eq!(message.role, "system");
    assert_eq!(message.content, "Be brief.");
}

#[test]
fn request_puts_the_system_prompt_first() {
    let client = Client::new("http://host/api/chat".to_string(), "tiny".to_string());
    let request = client.request(
        "You help.".to_string(),
        pairs(&[("user", "Hello"), ("assistant", "Hi"), ("user", "More")]),
        true,
    );
    assert_eq!(request.model, "tiny");
    assert!(request.stream);
    let sent: Vec<(String, String)> = request
        .messages
        .iter()
        .map(|m| (m.role.clone(), m.content.clone()))
        .collect();
    assert_eq!(
        sent,
        pairs(&[
            ("system", "You help."),
            ("user", "Hello"),
            ("assistant", "Hi"),
            ("user", "More")
        ])
    );
}

#[test]
fn request_without_history_is_the_system_message_alone() {
    let client = Client::new("u".to_string(), "m".to_string());
    let request = client.request(DEFAULT_SYSTEM_PROMPT.to_string(), Vec::new(), false);
    assert!(!request.stream);
    assert_eq!(request.messages.len(), 1);
    assert_eq!(request.messages[0].role, "system");
    assert_eq!(request.messages[0].content, DEFAULT_SYSTEM_PROMPT);
    assert!(DEFAULT_SYSTEM_PROMPT.starts_with("You are a helpful Linux assistant"));
    assert!(DEFAULT_SYSTEM_PROMPT.ends_with("https://system76.com/cosmic"));
}

#[test]
fn client_keeps_its_endpoint_and_model() {
    let client = Client::new("http://host/api/chat".to_string(), "tiny".to_string());
    assert_eq!(client.url(), "http://host/api/chat");
    assert_eq!(client.model(), "tiny");
    let default = Client::default();
    assert_eq!(default.url(), "http://localhost:11434/api/chat");
    assert_eq!(default.model(), "llama3.2:3b");
}

#[test]
fn failures_have_their_messages() {
    assert_eq!(
        Failure::Connection("refused".to_string()).message(),
        "Connection error: refused"
    );
    assert_eq!(
        Failure::Status("404 Not Found".to_string()).message(),
        "Ollama error: 404 Not Found"
    );
    assert_eq!(
        Failure::Parse("expected value at line 1 column 1".to_string()).message(),
        "Parse error: expected value at line 1 column 1"
    );
    assert_eq!(
        Failure::Stream("reset".to_string()).message(),
        "Stream error: reset"
    );
    assert_eq!(Failure::Parse(String::new()).message(), "Parse error: ");
}

#[test]
fn only_codes_from_200_to_299_are_a_success() {
    for code in [200u16, 201, 204, 299] {
        assert!(check_status(code, "ok").is_ok(), "{}", code);
    }
    for code in [0u16, 100, 199, 300, 301, 404, 500, 65535] {
        match check_status(code, "404 Not Found") {
            Err(Failure::Status(status)) => assert_eq!(status, "404 Not Found"),
            other => panic!("{} gave {:?}", code, other),
        }
    }
}

#[test]
fn chat_reply_is_the_content_or_the_failure() {
    let answered = ChatResponse {
        message: Message {
            role: "assistant".to_string(),
            content: "Use apt.".to_string(),
        },
    };
    assert_eq!(chat_reply(Ok(answered)), Ok("Use apt.".to_string()));
    assert_eq!(
        chat_reply(Err(Failure::Connection("timed out".to_string()))),
        Err("Connection error: timed out".to_string())
    );
    assert_eq!(
        chat_reply(Err(Failure::Status("500 Internal Server Error".to_string()))),
        Err("Ollama error: 500 Internal Server Error".to_string())
    );
    assert_eq!(
        chat_reply(Err(Failure::Parse("missing field `message`".to_string()))),
        Err("Parse error: missing field `message`".to_string())
    );
}

#[test]
fn catalog_entries_get_their_display_size() {
    let models = vec![
        ModelInfo {
            name: "llama3.2:3b".to_string(),
            size: 2_019_393_189,
        },
        ModelInfo {
            name: "tiny".to_string(),
            size: 300 * 1024 * 1024,
        },
    ];
    let expected = vec![
        AvailableModel {
            name: "llama3.2:3b".to_string(),
            display_size: "1.9 GB".to_string(),
        },
        AvailableModel {
            name: "tiny".to_string(),
            display_size: "300 MB".to_string(),
        },
    ];
    assert_eq!(available_models(models.clone()), expected);
    assert_eq!(model_list(Ok(TagsResponse { models })), Ok(expected));
    assert_eq!(available_models(Vec::new()), Vec::new());
}

#[test]
fn catalog_failures_give_one_message_and_no_models() {
    assert_eq!(
        model_list(Err(Failure::Status("404 Not Found".to_string()))),
        Err("Ollama error: 404 Not Found".to_string())
    );
    assert_eq!(
        model_list(Err(Failure::Connection("refused".to_string()))),
        Err("Connection error: refused".to_string())
    );
}
