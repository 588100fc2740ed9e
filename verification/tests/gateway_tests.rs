use token_gateway::gateway::{
    accepts, append_decimal, health, ready, respond, token_text, tokenize, try_tokenize, Status,
    TokenizeRequest,
};
use token_gateway::table::MAX_INPUT_BYTES;
use token_gateway::resolver::load_tokenizer;

fn request(input: &str, model: Option<&str>) -> TokenizeRequest {
    TokenizeRequest { input: input.to_string(), model: model.map(|m| m.to_string()) }
}

#[test]
fn status_codes() {
    assert_eq!(Status::Success.code(), 200);
    assert_eq!(Status::ServiceUnavailable.code(), 503);
}

#[test]
fn health_is_always_ok() {
    let (status, body) = health();
    assert_eq!(status, Status::Success);
    assert_eq!(status.code(), 200);
    assert_eq!(body, "ok");
}

#[test]
fn readiness_follows_the_flag() {
    assert_eq!(ready(true), (Status::Success, "ready"));
    assert_eq!(ready(false), (Status::ServiceUnavailable, "warming"));
}

#[test]
fn token_text_is_the_id_in_brackets() {
    assert_eq!(token_text(0), "[0]");
    assert_eq!(token_text(9), "[9]");
    assert_eq!(token_text(10), "[10]");
    assert_eq!(token_text(1917), "[1917]");
    assert_eq!(token_text(100257), "[100257]");
    assert_eq!(token_text(usize::MAX), format!("[{}]", usize::MAX));
}

#[test]
fn append_decimal_extends_the_text() {
    let mut out = String::from("id=");
    append_decimal(&mut out, 7105);
    assert_eq!(out, "id=7105");
    append_decimal(&mut out, 0);
    assert_eq!(out, "id=71050");
}

#[test]
fn append_decimal_agrees_with_std() {
    for n in [0usize, 1, 9, 10, 11, 99, 100, 101, 999, 1000, 65535, 1 << 32, usize::MAX - 1] {
        let mut out = String::new();
        append_decimal(&mut out, n);
        assert_eq!(out, n.to_string());
    }
}

#[test]
fn respond_names_each_id_in_order() {
    let response = respond(vec![1, 22, 333]);
    assert_eq!(response.ids, vec![1, 22, 333]);
    assert_eq!(response.tokens, vec!["[1]", "[22]", "[333]"]);
}

#[test]
fn respond_to_no_ids_is_empty() {
    let response = respond(Vec::new());
    assert!(response.ids.is_empty());
    assert!(response.tokens.is_empty());
}

#[test]
fn tokenize_without_a_table_is_unavailable() {
    let (status, response) = tokenize(&None, &request("hello world", None));
    assert_eq!(status, Status::ServiceUnavailable);
    assert_eq!(status.code(), 503);
    assert!(response.ids.is_empty());
    assert!(response.tokens.is_empty());
}

#[test]
fn tokenize_with_a_table_returns_ids_and_tokens() {
    let snapshot = Some(load_tokenizer("cl100k_base").unwrap());
    let (status, response) = tokenize(&snapshot, &request("hello world", None));
    assert_eq!(status, Status::Success);
    assert_eq!(response.ids, vec![15339, 1917]);
    assert_eq!(response.tokens, vec!["[15339]", "[1917]"]);
}

#[test]
fn tokenize_encodes_special_tokens() {
    let snapshot = Some(load_tokenizer("cl100k_base").unwrap());
    let (status, response) = tokenize(&snapshot, &request("<|endoftext|>", None));
    assert_eq!(status, Status::Success);
    assert_eq!(response.ids, vec![100257]);
    assert_eq!(response.tokens, vec!["[100257]"]);
}

#[test]
fn tokenize_empty_input_is_served_and_empty() {
    let snapshot = Some(load_tokenizer("cl100k_base").unwrap());
    let (status, response) = tokenize(&snapshot, &request("", None));
    assert_eq!(status, Status::Success);
    assert!(response.ids.is_empty());
    assert!(response.tokens.is_empty());
}

#[test]
fn tokenize_is_deterministic() {
    let snapshot = Some(load_tokenizer("cl100k_base").unwrap());
    let text = "The quick brown fox jumps over the lazy dog. 12345 \u{1F600}";
    let (first_status, first) = tokenize(&snapshot, &request(text, None));
    let (second_status, second) = tokenize(&snapshot, &request(text, None));
    assert_eq!(first_status, second_status);
    assert_eq!(first.ids, second.ids);
    assert_eq!(first.tokens, second.tokens);
    assert_eq!(first.ids.len(), first.tokens.len());
    assert!(!first.ids.is_empty());
}

#[test]
fn tokenize_ignores_the_requested_model() {
    let snapshot = Some(load_tokenizer("cl100k_base").unwrap());
    let (_, plain) = tokenize(&snapshot, &request("hello world", None));
    let (status, other) = tokenize(&snapshot, &request("hello world", Some("gpt2")));
    assert_eq!(status, Status::Success);
    assert_eq!(other.ids, plain.ids);
    assert_eq!(other.ids, vec![15339, 1917]);
    let (status, unknown) = tokenize(&snapshot, &request("hello world", Some("no-such-model")));
    assert_eq!(status, Status::Success);
    assert_eq!(unknown.ids, plain.ids);
}

#[test]
fn accepts_counts_bytes() {
    assert_eq!(MAX_INPUT_BYTES, 999000);
    assert!(accepts(&request("", None)));
    assert!(accepts(&request(&"a".repeat(999000), None)));
    assert!(!accepts(&request(&"a".repeat(999001), None)));
    assert!(accepts(&request(&"\u{00e9}".repeat(499500), None)));
    assert!(!accepts(&request(&"\u{00e9}".repeat(499501), None)));
}

#[test]
fn try_tokenize_serves_what_tokenize_serves() {
    let snapshot = Some(load_tokenizer("cl100k_base").unwrap());
    let (status, response) = try_tokenize(&snapshot, &request("hello world", None)).unwrap();
    assert_eq!(status, Status::Success);
    assert_eq!(response.ids, vec![15339, 1917]);
    assert_eq!(response.tokens, vec!["[15339]", "[1917]"]);
}

#[test]
fn try_tokenize_takes_the_longest_input() {
    let snapshot = Some(load_tokenizer("cl100k_base").unwrap());
    let input = "a ".repeat(499500);
    let (status, response) = try_tokenize(&snapshot, &request(&input, None)).unwrap();
    assert_eq!(status, Status::Success);
    assert!(!response.ids.is_empty());
    assert_eq!(response.ids.len(), response.tokens.len());
}

#[test]
fn try_tokenize_refuses_longer_input() {
    let snapshot = Some(load_tokenizer("cl100k_base").unwrap());
    let input = "a ".repeat(499500) + "a";
    assert!(try_tokenize(&snapshot, &request(&input, None)).is_none());
}

#[test]
fn try_tokenize_without_a_table_is_unavailable_for_any_input() {
    for input in [String::new(), "hello".to_string(), " ".repeat(3000000)] {
        let (status, response) = try_tokenize(&None, &request(&input, None)).unwrap();
        assert_eq!(status, Status::ServiceUnavailable);
        assert!(response.ids.is_empty());
        assert!(response.tokens.is_empty());
    }
}

#[test]
fn tokenize_serves_a_long_run_of_white_space() {
    let snapshot = Some(load_tokenizer("cl100k_base").unwrap());
    let input = " ".repeat(4000) + "x" + &" \n".repeat(2000);
    let (status, response) = tokenize(&snapshot, &request(&input, None));
    assert_eq!(status, Status::Success);
    assert!(!response.ids.is_empty());
    assert_eq!(response.ids.len(), response.tokens.len());
}

#[test]
fn tokenize_serves_a_document_of_150_kilobytes() {
    let snapshot = Some(load_tokenizer("cl100k_base").unwrap());
    let input = "The quick brown fox jumps over the lazy dog.\n".repeat(3400);
    assert!(input.len() > 150000);
    let (status, response) = try_tokenize(&snapshot, &request(&input, None)).unwrap();
    assert_eq!(status, Status::Success);
    assert_eq!(response.ids.len() % 3400, 0);
    assert!(!response.ids.is_empty());
    assert_eq!(response.ids.len(), response.tokens.len());
}

#[test]
fn tokenize_serves_the_longest_run_of_white_space() {
    let snapshot = Some(load_tokenizer("gpt2").unwrap());
    let input = " ".repeat(MAX_INPUT_BYTES);
    let (status, response) = try_tokenize(&snapshot, &request(&input, None)).unwrap();
    assert_eq!(status, Status::Success);
    assert!(!response.ids.is_empty());
    assert_eq!(response.ids.len(), response.tokens.len());
}
