use cosmic_applet_ollama::web::{
    format_results, search_parameters, search_result, take_texts, DdgResponse, RelatedTopic,
    SearchResult, MAX_FALLBACK_TOPICS, MAX_RELATED, SEARCH_URL,
};

fn topics(texts: &[Option<&str>]) -> Vec<RelatedTopic> {
    texts
        .iter()
        .map(|text| RelatedTopic {
            text: text.map(String::from),
        })
        .collect()
}

fn response(text: &str, source: &str, url: &str, related: &[Option<&str>]) -> DdgResponse {
    DdgResponse {
        abstract_text: text.to_string(),
        abstract_source: source.to_string(),
        abstract_url: url.to_string(),
        related_topics: topics(related),
    }
}

#[test]
fn search_asks_for_json_without_html_or_disambiguation() {
    let expected: Vec<(String, String)> = [
        ("q", "rust lang"),
        ("format", "json"),
        ("no_html", "1"),
        ("skip_disambig", "1"),
    ]
    .iter()
    .map(|(k, v)| (k.to_string(), v.to_string()))
    .collect();
    assert_eq!(search_parameters("rust lang"), expected);
    assert_eq!(SEARCH_URL, "https://api.duckduckgo.com/");
}

#[test]
fn an_abstract_is_the_summary_with_up_to_three_related_items() {
    let result = search_result(
        response(
            "COSMIC is a desktop environment.",
            "Wikipedia",
            "https://en.wikipedia.org/wiki/COSMIC",
            &[Some("one"), None, Some("two"), Some("three"), Some("four")],
        ),
        "cosmic desktop",
    )
    .unwrap();
    assert_eq!(result.summary, "COSMIC is a desktop environment.");
    assert_eq!(result.source, "Wikipedia");
    assert_eq!(result.url, "https://en.wikipedia.org/wiki/COSMIC");
    assert_eq!(result.related, vec!["one", "two", "three"]);
    assert_eq!(MAX_RELATED, 3);
}

#[test]
fn an_abstract_stands_without_related_topics() {
    let result = search_result(response("Summary.", "", "", &[None, None]), "q").unwrap();
    assert_eq!(result.summary, "Summary.");
    assert_eq!(result.source, "");
    assert_eq!(result.url, "");
    assert!(result.related.is_empty());
}

#[test]
fn related_topics_stand_in_for_a_missing_abstract() {
    let result = search_result(
        response(
            "",
            "ignored",
            "ignored",
            &[
                Some("a"),
                Some("b"),
                None,
                Some("c"),
                Some("d"),
                Some("e"),
                Some("f"),
            ],
        ),
        "pop os & cosmic",
    )
    .unwrap();
    assert_eq!(result.summary, "a\n\nb\n\nc\n\nd\n\ne");
    assert_eq!(result.source, "DuckDuckGo");
    assert_eq!(result.url, "https://duckduckgo.com/?q=pop%20os%20%26%20cosmic");
    assert!(result.related.is_empty());
    assert_eq!(MAX_FALLBACK_TOPICS, 5);
}

#[test]
fn fallback_url_is_percent_encoded() {
    let cases = [
        ("rust", "rust"),
        ("a b", "a%20b"),
        ("AZaz09-._~", "AZaz09-._~"),
        ("100%", "100%25"),
        ("a+b=c&d", "a%2Bb%3Dc%26d"),
        ("é", "%C3%A9"),
        ("👾 Exterminate!", "%F0%9F%91%BE%20Exterminate%21"),
        ("/?#[]@", "%2F%3F%23%5B%5D%40"),
        ("", ""),
    ];
    for (query, encoded) in cases {
        let result = search_result(response("", "", "", &[Some("topic")]), query).unwrap();
        assert_eq!(result.url, format!("https://duckduckgo.com/?q={}", encoded));
        assert_eq!(result.summary, "topic");
    }
}

#[test]
fn a_response_with_nothing_gives_no_result() {
    assert!(search_result(response("", "src", "url", &[]), "q").is_none());
    assert!(search_result(response("", "", "", &[None, None, None]), "q").is_none());
}

#[test]
fn take_texts_keeps_the_first_present_texts() {
    let all = [Some("a"), None, Some("b"), Some(""), None, Some("c")];
    assert_eq!(take_texts(topics(&all), 0), Vec::<String>::new());
    assert_eq!(take_texts(topics(&all), 1), vec!["a"]);
    assert_eq!(take_texts(topics(&all), 3), vec!["a", "b", ""]);
    assert_eq!(take_texts(topics(&all), 4), vec!["a", "b", "", "c"]);
    assert_eq!(take_texts(topics(&all), 100), vec!["a", "b", "", "c"]);
    assert_eq!(take_texts(Vec::new(), 3), Vec::<String>::new());
}

#[test]
fn results_are_formatted_with_source_and_related_items() {
    let result = SearchResult {
        summary: "The summary.".to_string(),
        source: "Wikipedia".to_string(),
        url: "https://example.org/x".to_string(),
        related: vec!["first".to_string(), "second".to_string()],
    };
    assert_eq!(
        format_results(&result),
        "## Web Search Results\n\nThe summary.\n\nSource: Wikipedia (https://example.org/x)\n\nRelated info:\n- first\n- second\n"
    );
}

#[test]
fn results_without_source_or_related_items_are_the_summary_alone() {
    let mut result = SearchResult {
        summary: "Only this.".to_string(),
        source: String::new(),
        url: "https://example.org/unused".to_string(),
        related: Vec::new(),
    };
    assert_eq!(format_results(&result), "## Web Search Results\n\nOnly this.");
    result.related = vec!["item".to_string()];
    assert_eq!(
        format_results(&result),
        "## Web Search Results\n\nOnly this.\n\nRelated info:\n- item\n"
    );
    result.related.clear();
    result.source = "Src".to_string();
    result.url = String::new();
    assert_eq!(
        format_results(&result),
        "## Web Search Results\n\nOnly this.\n\nSource: Src ()"
    );
}

#[test]
fn a_fallback_result_is_formatted_with_its_synthesized_source() {
    let result = search_result(response("", "", "", &[Some("x"), Some("y")]), "how to").unwrap();
    assert_eq!(
        format_results(&result),
        "## Web Search Results\n\nx\n\ny\n\nSource: DuckDuckGo (https://duckduckgo.com/?q=how%20to)"
    );
}
