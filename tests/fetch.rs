use jokes_client::{select_first, JokesClient, JokesClientError, JokesResponse, Timestamp};

const DARK_MODE: &str = r#"[{"type":"programming","setup":"Why do programmers prefer dark mode?","punchline":"Because light attracts bugs.","id":1}]"#;

fn now_stamp() -> Timestamp {
    let now = chrono::Utc::now();
    Timestamp::new(now.timestamp(), now.timestamp_subsec_nanos()).unwrap()
}

fn at(secs: i64, nanos: u32) -> Timestamp {
    Timestamp::new(secs, nanos).unwrap()
}

#[test]
fn single_joke_body_gives_stamped_joke() {
    let client = JokesClient::new();
    let before = now_stamp();
    let result = client.fetch_joke(Ok(DARK_MODE.to_string()));
    let after = now_stamp();
    let joke = result.expect("a well-formed single joke must be accepted");
    assert_eq!(joke.id, 1);
    assert_eq!(joke.joke_type, "programming");
    assert_eq!(joke.setup, "Why do programmers prefer dark mode?");
    assert_eq!(joke.punchline, "Because light attracts bugs.");
    let t = joke.fetched_at.expect("a returned joke is stamped");
    assert!(before.is_no_later_than(&t));
    assert!(t.is_no_later_than(&after));
}

#[test]
fn resolve_stamps_with_given_time() {
    let t = at(1_700_000_000, 5);
    let joke = JokesClient::resolve(Ok(DARK_MODE.to_string()), t).unwrap();
    assert_eq!(joke.fetched_at, Some(t));
    assert_eq!(joke.id, 1);
}

#[test]
fn empty_array_is_network_error() {
    let client = JokesClient::new();
    let result = client.fetch_joke(Ok("[]".to_string()));
    match result {
        Err(JokesClientError::NetworkError(m)) => assert_eq!(m, "The service returned no jokes."),
        other => panic!("expected a network error, got {:?}", other),
    }
}

#[test]
fn empty_array_with_spaces_is_network_error() {
    let result = JokesClient::resolve(Ok(" [ ]\n".to_string()), at(0, 0));
    assert!(matches!(result, Err(JokesClientError::NetworkError(_))));
}

#[test]
fn not_json_is_parse_error() {
    let client = JokesClient::new();
    let result = client.fetch_joke(Ok("not json".to_string()));
    match result {
        Err(JokesClientError::ParseError(m)) => {
            assert!(!m.is_empty());
            assert_eq!(m, "Error parsing response: not json");
        }
        other => panic!("expected a parse error, got {:?}", other),
    }
}

#[test]
fn parse_error_quotes_at_most_eighty_characters() {
    let body = "x".repeat(200);
    let result = JokesClient::resolve(Ok(body), at(0, 0));
    match result {
        Err(JokesClientError::ParseError(m)) => {
            assert_eq!(m, format!("Error parsing response: {}", "x".repeat(80)));
        }
        other => panic!("expected a parse error, got {:?}", other),
    }
}

#[test]
fn transport_failure_is_network_error() {
    let client = JokesClient::new();
    let result = client.fetch_joke(Err("connection refused".to_string()));
    match result {
        Err(JokesClientError::NetworkError(m)) => {
            assert_eq!(m, "Error fetching a joke: connection refused")
        }
        other => panic!("expected a network error, got {:?}", other),
    }
}

#[test]
fn missing_member_is_parse_error() {
    let body = r#"[{"type":"programming","setup":"s","id":1}]"#;
    let result = JokesClient::resolve(Ok(body.to_string()), at(0, 0));
    assert!(matches!(result, Err(JokesClientError::ParseError(_))));
}

#[test]
fn wrongly_typed_member_is_parse_error() {
    let body = r#"[{"type":"programming","setup":"s","punchline":"p","id":"1"}]"#;
    let result = JokesClient::resolve(Ok(body.to_string()), at(0, 0));
    assert!(matches!(result, Err(JokesClientError::ParseError(_))));
}

#[test]
fn duplicate_member_is_parse_error() {
    let body = r#"[{"type":"a","type":"b","setup":"s","punchline":"p","id":1}]"#;
    let result = JokesClient::resolve(Ok(body.to_string()), at(0, 0));
    assert!(matches!(result, Err(JokesClientError::ParseError(_))));
}

#[test]
fn id_beyond_i64_is_parse_error() {
    let body = r#"[{"type":"a","setup":"s","punchline":"p","id":9223372036854775808}]"#;
    let result = JokesClient::resolve(Ok(body.to_string()), at(0, 0));
    assert!(matches!(result, Err(JokesClientError::ParseError(_))));
}

#[test]
fn smallest_i64_id_is_accepted() {
    let body = r#"[{"type":"a","setup":"s","punchline":"p","id":-9223372036854775808}]"#;
    let joke = JokesClient::resolve(Ok(body.to_string()), at(0, 0)).unwrap();
    assert_eq!(joke.id, i64::MIN);
}

#[test]
fn trailing_text_is_parse_error() {
    let body = format!("{} []", DARK_MODE);
    let result = JokesClient::resolve(Ok(body), at(0, 0));
    assert!(matches!(result, Err(JokesClientError::ParseError(_))));
}

#[test]
fn object_instead_of_array_is_parse_error() {
    let body = r#"{"type":"a","setup":"s","punchline":"p","id":1}"#;
    let result = JokesClient::resolve(Ok(body.to_string()), at(0, 0));
    assert!(matches!(result, Err(JokesClientError::ParseError(_))));
}

#[test]
fn other_members_are_ignored() {
    let body = r#"[ {"id": 7, "extra": true, "punchline": "p", "fetched_at": null,
        "setup": "s", "rating": -3, "type": "general"} ]"#;
    let joke = JokesClient::resolve(Ok(body.to_string()), at(9, 9)).unwrap();
    assert_eq!(joke.id, 7);
    assert_eq!(joke.joke_type, "general");
    assert_eq!(joke.setup, "s");
    assert_eq!(joke.punchline, "p");
    assert_eq!(joke.fetched_at, Some(at(9, 9)));
}

#[test]
fn escapes_are_decoded() {
    let body = r#"[{"type":"a\/b","setup":"say \"hi\"\n","punchline":"back\\slash\t","id":2}]"#;
    let joke = JokesClient::resolve(Ok(body.to_string()), at(0, 0)).unwrap();
    assert_eq!(joke.joke_type, "a/b");
    assert_eq!(joke.setup, "say \"hi\"\n");
    assert_eq!(joke.punchline, "back\\slash\t");
}

#[test]
fn non_ascii_text_is_kept() {
    let body = r#"[{"type":"jeu","setup":"Où est le café ?","punchline":"Ici ☕","id":3}]"#;
    let joke = JokesClient::resolve(Ok(body.to_string()), at(0, 0)).unwrap();
    assert_eq!(joke.setup, "Où est le café ?");
    assert_eq!(joke.punchline, "Ici ☕");
}

#[test]
fn first_of_several_jokes_is_selected() {
    let body = r#"[{"type":"a","setup":"first","punchline":"p","id":10},
                   {"type":"b","setup":"second","punchline":"q","id":11}]"#;
    let joke = JokesClient::resolve(Ok(body.to_string()), at(0, 0)).unwrap();
    assert_eq!(joke.id, 10);
    assert_eq!(joke.setup, "first");
}

#[test]
fn decode_keeps_order_and_leaves_unstamped() {
    let body = r#"[{"type":"a","setup":"s1","punchline":"p1","id":1},{"type":"b","setup":"s2","punchline":"p2","id":2}]"#;
    let jokes = JokesResponse::decode(body).unwrap().inner();
    assert_eq!(jokes.len(), 2);
    assert_eq!(jokes[0].id, 1);
    assert_eq!(jokes[1].id, 2);
    assert_eq!(jokes[1].punchline, "p2");
    assert!(jokes.iter().all(|j| j.fetched_at.is_none()));
}

#[test]
fn decode_empty_array_is_empty_batch() {
    let jokes = JokesResponse::decode("[]").unwrap().inner();
    assert!(jokes.is_empty());
}

#[test]
fn unicode_escapes_are_decoded() {
    let body = r#"[{"type":"\u0061","setup":"caf\u00e9 \u2615","punchline":"\ud83d\ude00!","id":1}]"#;
    let joke = JokesClient::resolve(Ok(body.to_string()), at(0, 0)).unwrap();
    assert_eq!(joke.joke_type, "a");
    assert_eq!(joke.setup, "café ☕");
    assert_eq!(joke.punchline, "😀!");
}

#[test]
fn lone_surrogates_are_parse_errors() {
    let high = r#"[{"type":"\ud83d","setup":"s","punchline":"p","id":1}]"#;
    let low = r#"[{"type":"\ude00","setup":"s","punchline":"p","id":1}]"#;
    let bad_pair = r#"[{"type":"\ud83d\u0041","setup":"s","punchline":"p","id":1}]"#;
    for body in [high, low, bad_pair] {
        let result = JokesClient::resolve(Ok(body.to_string()), at(0, 0));
        assert!(matches!(result, Err(JokesClientError::ParseError(_))), "{}", body);
    }
}

#[test]
fn leading_zero_is_parse_error() {
    let body = r#"[{"type":"a","setup":"s","punchline":"p","id":01}]"#;
    let result = JokesClient::resolve(Ok(body.to_string()), at(0, 0));
    assert!(matches!(result, Err(JokesClientError::ParseError(_))));
    let elsewhere = r#"[{"type":"a","setup":"s","punchline":"p","id":1,"n":-00}]"#;
    assert!(JokesResponse::decode(elsewhere).is_none());
}

#[test]
fn fractional_id_is_parse_error() {
    for id in ["1.0", "1e2", "-0.5E-3"] {
        let body = format!(r#"[{{"type":"a","setup":"s","punchline":"p","id":{}}}]"#, id);
        let result = JokesClient::resolve(Ok(body), at(0, 0));
        assert!(matches!(result, Err(JokesClientError::ParseError(_))), "{}", id);
    }
}

#[test]
fn other_members_may_hold_any_json_value() {
    let body = r#"[{"type":"a","setup":"s","punchline":"p","id":0,
        "score": -12.5e+3, "big": 123456789012345678901234567890, "zero": 0, "neg": -0.0,
        "tags": ["x", 1, [true, null], {}], "meta": {"k": {"deep": [[]]}, "e": []}}]"#;
    let joke = JokesClient::resolve(Ok(body.to_string()), at(1, 2)).unwrap();
    assert_eq!(joke.id, 0);
    assert_eq!(joke.setup, "s");
}

#[test]
fn malformed_nested_values_are_parse_errors() {
    for other in [r#"[1,]"#, r#"{"k" 1}"#, r#"[}"#, r#"{"k":1]"#, r#"[1 2]"#, r#"{1:2}"#, r#"1."#, r#"2e"#, r#"-"#] {
        let body = format!(r#"[{{"type":"a","setup":"s","punchline":"p","id":1,"x":{}}}]"#, other);
        assert!(JokesResponse::decode(&body).is_none(), "{}", other);
    }
}

#[test]
fn member_of_a_joke_may_not_hold_a_container() {
    let body = r#"[{"type":["a"],"setup":"s","punchline":"p","id":1}]"#;
    assert!(JokesResponse::decode(body).is_none());
}

#[test]
fn decode_rejects_malformed_text() {
    assert!(JokesResponse::decode("").is_none());
    assert!(JokesResponse::decode("[").is_none());
    assert!(JokesResponse::decode("[{}]").is_none());
    assert!(JokesResponse::decode(r#"[{"type":"a","setup":"s","punchline":"p","id":1},]"#).is_none());
    assert!(JokesResponse::decode(r#"[{"type":"a","setup":"s","punchline":"p","id":1.5}]"#).is_none());
    assert!(JokesResponse::decode(r#"[{"type":"unterminated}]"#).is_none());
}

#[test]
fn select_first_of_empty_batch_is_none() {
    let batch = JokesResponse::decode("[]").unwrap();
    assert!(select_first(batch).is_none());
}

#[test]
fn error_kinds_render_differently() {
    let network = JokesClientError::NetworkError("m".to_string());
    let parse = JokesClientError::ParseError("m".to_string());
    assert_eq!(network.to_string(), "Network error: m");
    assert_eq!(parse.to_string(), "Parse error: m");
    assert_ne!(network.to_string(), parse.to_string());
    assert_eq!(network.message(), "m");
}

#[test]
fn endpoint_url_joins_base_and_path() {
    let client = JokesClient::with_base_url("http://localhost:8080/jokes".to_string());
    assert_eq!(client.endpoint_url(), "http://localhost:8080/jokes/programming/random");
    assert_eq!(client.base_url(), "http://localhost:8080/jokes");
    let default = JokesClient::new();
    assert_eq!(
        default.endpoint_url(),
        "https://official-joke-api.appspot.com/jokes/programming/random"
    );
}

