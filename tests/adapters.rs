use api_adapters::discord;
use api_adapters::error::AdapterError;
use api_adapters::github::{self, GitHubIssue};
use api_adapters::hello::hello_world;
use api_adapters::http::{Method, Response};
use api_adapters::json::is_numeral;
use api_adapters::openai::{self, ChatCompletion, ChatMessage, Embedding};
use api_adapters::text::decimal_text;

fn ok(status: u16, body: &str) -> Result<Response, String> {
    Ok(Response { status, body: body.as_bytes().to_vec() })
}

fn header_pairs(headers: &[(String, String)]) -> Vec<(&str, &str)> {
    headers.iter().map(|(k, v)| (k.as_str(), v.as_str())).collect()
}

#[test]
fn test_hello_world() {
    assert_eq!(hello_world(), "Hello, World!");
}

#[test]
fn test_github_issue_struct() {
    let issue = GitHubIssue { body: "body".to_string(), number: 1, title: "title".to_string() };
    assert_eq!(issue.body, "body");
    assert_eq!(issue.number, 1);
    assert_eq!(issue.title, "title");
}

#[test]
fn discord_delete_message_counts_any_200_as_success() {
    let r = discord::read_acknowledgement(ok(404, r#"{"code":"200 something unrelated"}"#));
    assert_eq!(r, Ok(()));
}

#[test]
fn discord_boolean_operation_without_200_is_provider_error() {
    let r = discord::read_acknowledgement(ok(200, r#"{"code":10008,"message":"Unknown Message"}"#));
    assert_eq!(r, Err(AdapterError::ProviderError));
    assert_eq!(discord::read_acknowledgement(ok(200, "20 0")), Err(AdapterError::ProviderError));
    assert_eq!(discord::read_acknowledgement(ok(200, "")), Err(AdapterError::ProviderError));
    assert_eq!(discord::read_acknowledgement(ok(200, "x200")), Ok(()));
}

#[test]
fn github_delete_repository_goes_by_status() {
    assert_eq!(github::read_deletion(ok(204, "")), Ok(()));
    assert_eq!(github::read_deletion(ok(404, "")), Err(AdapterError::ProviderError));
    assert_eq!(github::read_deletion(ok(200, "200")), Err(AdapterError::ProviderError));
}

#[test]
fn openai_chat_completion_maps_first_choice() {
    let body = r#"{"id":"c1","model":"gpt-4","choices":[{"message":{"content":"hi"},"finish_reason":"stop"}]}"#;
    let r = openai::read_chat_completion(ok(200, body)).unwrap();
    assert_eq!(r.id, "c1");
    assert_eq!(r.model, "gpt-4");
    assert_eq!(r.content, "hi");
    assert_eq!(r.finish_reason, "stop");
}

#[test]
fn openai_chat_completion_picks_index_zero_of_several() {
    let body = r#"{"id":"c2","model":"m","extra":1,"choices":[{"message":{"content":"a","role":"assistant"},"finish_reason":"length"},{"message":{"content":"b"},"finish_reason":"stop"}]}"#;
    let r = openai::read_chat_completion(ok(200, body)).unwrap();
    assert_eq!(r.content, "a");
    assert_eq!(r.finish_reason, "length");
}

#[test]
fn openai_chat_completion_with_a_broken_later_choice_is_malformed() {
    let body = r#"{"id":"c2","model":"m","choices":[{"message":{"content":"a"},"finish_reason":"stop"},{"message":{}}]}"#;
    let r = openai::read_chat_completion(ok(200, body));
    assert_eq!(r, Err(AdapterError::MalformedResponse(body.to_string())));
}

#[test]
fn openai_empty_choices_is_empty_response_array() {
    let r = openai::read_chat_completion(ok(200, r#"{"id":"c1","model":"gpt-4","choices":[]}"#));
    assert_eq!(r, Err(AdapterError::EmptyResponseArray));
}

#[test]
fn openai_empty_data_is_empty_response_array() {
    let r = openai::read_embedding(ok(200, r#"{"model":"text-embedding-ada-002","data":[]}"#));
    assert_eq!(r, Err(AdapterError::EmptyResponseArray));
}

#[test]
fn openai_embedding_keeps_numerals() {
    let body = r#"{"object":"list","model":"ada","data":[{"embedding":[0.5,-0.25,1]},{"embedding":[2]}]}"#;
    let r = openai::read_embedding(ok(200, body)).unwrap();
    assert_eq!(r.model, "ada");
    assert_eq!(r.embedding, vec!["0.5".to_string(), "-0.25".to_string(), "1".to_string()]);
    let values: Vec<f64> = r.embedding.iter().map(|n| n.parse().unwrap()).collect();
    assert_eq!(values, vec![0.5, -0.25, 1.0]);
}

#[test]
fn openai_embedding_with_non_numbers_is_malformed() {
    let body = r#"{"model":"ada","data":[{"embedding":["x"]}]}"#;
    assert_eq!(
        openai::read_embedding(ok(200, body)),
        Err(AdapterError::MalformedResponse(body.to_string()))
    );
}

#[test]
fn invalid_utf8_is_invalid_encoding() {
    let bad = Ok(Response { status: 200, body: vec![0x7b, 0xff, 0xfe, 0x7d] });
    assert_eq!(discord::read_user(bad.clone()), Err(AdapterError::InvalidEncoding));
    assert_eq!(discord::read_acknowledgement(bad.clone()), Err(AdapterError::InvalidEncoding));
    assert_eq!(github::read_issue(bad.clone()), Err(AdapterError::InvalidEncoding));
    assert_eq!(openai::read_chat_completion(bad), Err(AdapterError::InvalidEncoding));
}

#[test]
fn transport_failure_is_request_failed() {
    let r = discord::read_webhook(Err("connection refused".to_string()));
    assert_eq!(r, Err(AdapterError::RequestFailed("connection refused".to_string())));
    let r = github::read_deletion(Err("timeout".to_string()));
    assert_eq!(r, Err(AdapterError::RequestFailed("timeout".to_string())));
}

#[test]
fn malformed_json_keeps_the_body() {
    let r = discord::read_webhook(ok(200, "not json"));
    assert_eq!(r, Err(AdapterError::MalformedResponse("not json".to_string())));
    let r = github::read_issue(ok(200, r#"{"body":"b","number":"1","title":"t"}"#));
    assert_eq!(r, Err(AdapterError::MalformedResponse(r#"{"body":"b","number":"1","title":"t"}"#.to_string())));
}

#[test]
fn discord_webhook_fields_are_copied() {
    let body = r#"{"id":"1","token":"tok","url":"https://x","name":"ignored"}"#;
    let w = discord::read_webhook(ok(200, body)).unwrap();
    assert_eq!(w, discord::Webhook { id: "1".into(), token: "tok".into(), url: "https://x".into() });
}

#[test]
fn discord_channel_optional_guild() {
    let c = discord::read_channel(ok(200, r#"{"id":"9","name":"general","type":0,"guild_id":"g"}"#)).unwrap();
    assert_eq!(c.ty, 0);
    assert_eq!(c.guild_id, Some("g".to_string()));
    let c = discord::read_channel(ok(200, r#"{"id":"9","name":"dm","type":1,"guild_id":null}"#)).unwrap();
    assert_eq!(c.guild_id, None);
    let c = discord::read_channel(ok(200, r#"{"id":"9","name":"dm","type":1}"#)).unwrap();
    assert_eq!(c.guild_id, None);
    assert_eq!(c.name, "dm");
    let big = r#"{"id":"9","name":"dm","type":4294967296}"#;
    assert_eq!(discord::read_channel(ok(200, big)), Err(AdapterError::MalformedResponse(big.to_string())));
    let wrong = r#"{"id":"9","name":"dm","type":1,"guild_id":5}"#;
    assert_eq!(discord::read_channel(ok(200, wrong)), Err(AdapterError::MalformedResponse(wrong.to_string())));
}

#[test]
fn reads_are_repeatable_on_the_same_response() {
    let body = r#"{"id":"7","username":"u","discriminator":"0001","avatar":null}"#;
    let a = discord::read_user(ok(200, body));
    let b = discord::read_user(ok(200, body));
    assert_eq!(a, b);
    assert_eq!(a.unwrap().avatar, None);
    let gh = r#"{"avatar_url":"https://a","id":42,"login":"octo"}"#;
    let a = github::read_user(ok(200, gh)).unwrap();
    assert_eq!(a, github::read_user(ok(200, gh)).unwrap());
    assert_eq!(a, github::User { avatar_url: "https://a".into(), id: 42, login: "octo".into() });
}

#[test]
fn discord_message_ids() {
    let r = discord::read_message_id(ok(200, r#"{"id":"m1","content":"x"}"#));
    assert_eq!(r, Ok("m1".to_string()));
}

#[test]
fn github_repository_owner_is_login() {
    let body = r#"{"name":"r","description":"d","owner":{"login":"me","id":3,"avatar_url":"a"},"private":false}"#;
    let r = github::read_repository(ok(201, body)).unwrap();
    assert_eq!(r, github::Repository { description: "d".into(), name: "r".into(), owner: "me".into() });
}

#[test]
fn github_issue_fields_are_copied() {
    let r = github::read_issue(ok(201, r#"{"body":"b","number":12,"title":"t","state":"open"}"#)).unwrap();
    assert_eq!(r, github::Issue { body: "b".into(), number: 12, title: "t".into() });
}

#[test]
fn discord_requests_use_bot_authorization() {
    let r = discord::create_webhook_request("T", "C", "hook");
    assert_eq!(r.method, Method::Post);
    assert_eq!(r.url, "https://discord.com/api/v10/channels/C/webhooks");
    assert_eq!(header_pairs(&r.headers), vec![("Authorization", "Bot T"), ("Content-Type", "application/json")]);
    assert_eq!(r.body, Some(r#"{"name":"hook"}"#.to_string()));
    let r = discord::delete_message_request("T", "C", "M");
    assert_eq!(r.method, Method::Delete);
    assert_eq!(r.url, "https://discord.com/api/v10/channels/C/messages/M");
    assert_eq!(header_pairs(&r.headers), vec![("Authorization", "Bot T")]);
    assert_eq!(r.body, None);
    let r = discord::delete_webhook_request("T", "W", "K");
    assert_eq!(r.url, "https://discord.com/api/v10/webhooks/W/K");
    let r = discord::edit_message_request("T", "C", "M", "new");
    assert_eq!(r.method, Method::Patch);
    assert_eq!(r.body, Some(r#"{"content":"new"}"#.to_string()));
    assert_eq!(discord::get_channel_request("T", "C").url, "https://discord.com/api/v10/channels/C");
    assert_eq!(discord::get_user_request("T", "U").url, "https://discord.com/api/v10/users/U");
}

#[test]
fn discord_message_body_omits_missing_guild() {
    let m = discord::Message { channel_id: "C".into(), content: "say \"hi\"".into(), guild_id: None };
    let r = discord::send_message_request("T", &m);
    assert_eq!(r.url, "https://discord.com/api/v10/channels/C/messages");
    assert_eq!(r.body, Some(r#"{"content":"say \"hi\""}"#.to_string()));
    let m = discord::Message { channel_id: "C".into(), content: "x".into(), guild_id: Some("G".into()) };
    let r = discord::send_message_request("T", &m);
    assert_eq!(r.body, Some(r#"{"content":"x","guild_id":"G"}"#.to_string()));
    let w = discord::Webhook { id: "W".into(), token: "K".into(), url: "u".into() };
    let r = discord::send_webhook_message_request("T", &w, "c");
    assert_eq!(r.url, "https://discord.com/api/v10/webhooks/W/K");
    assert_eq!(r.body, Some(r#"{"content":"c"}"#.to_string()));
}

#[test]
fn github_requests_send_accept_and_bearer() {
    let r = github::delete_repository_request("T", "o", "r");
    assert_eq!(r.method, Method::Delete);
    assert_eq!(r.url, "https://api.github.com/repos/o/r");
    assert_eq!(
        header_pairs(&r.headers),
        vec![("Authorization", "Bearer T"), ("Accept", "application/vnd.github.v3+json")]
    );
    let r = github::get_user_request("T");
    assert_eq!(r.url, "https://api.github.com/user");
    assert_eq!(r.body, None);
    assert!(header_pairs(&r.headers).contains(&("Accept", "application/vnd.github.v3+json")));
    let r = github::create_issue_request("T", "o", "r", "t", "b");
    assert_eq!(r.url, "https://api.github.com/repos/o/r/issues");
    assert_eq!(r.body, Some(r#"{"title":"t","body":"b"}"#.to_string()));
    assert_eq!(
        header_pairs(&r.headers),
        vec![
            ("Authorization", "Bearer T"),
            ("Accept", "application/vnd.github.v3+json"),
            ("Content-Type", "application/json")
        ]
    );
    let r = github::update_issue_request("T", "o", "r", 4071, "t", "b");
    assert_eq!(r.method, Method::Patch);
    assert_eq!(r.url, "https://api.github.com/repos/o/r/issues/4071");
    let r = github::create_repository_request("T", "n", "d");
    assert_eq!(r.url, "https://api.github.com/user/repos");
    assert_eq!(r.body, Some(r#"{"name":"n","description":"d","private":false}"#.to_string()));
}

fn chat(temperature: Option<&str>, max_tokens: Option<u32>) -> ChatCompletion {
    ChatCompletion {
        id: "chat_completion_id".into(),
        model: "gpt-4".into(),
        messages: vec![
            ChatMessage { role: "system".into(), content: "Be brief.".into() },
            ChatMessage { role: "user".into(), content: "hi".into() },
        ],
        temperature: temperature.map(|t| t.to_string()),
        max_tokens,
    }
}

#[test]
fn openai_chat_body_omits_unset_options() {
    let r = openai::chat_completion_request("K", &chat(None, None));
    assert_eq!(r.url, "https://api.openai.com/v1/chat/completions");
    assert_eq!(header_pairs(&r.headers), vec![("Authorization", "Bearer K"), ("Content-Type", "application/json")]);
    let body = r.body.unwrap();
    assert_eq!(
        body,
        r#"{"model":"gpt-4","messages":[{"role":"system","content":"Be brief."},{"role":"user","content":"hi"}]}"#
    );
    assert!(!body.contains("temperature"));
    assert!(!body.contains("max_tokens"));
}

#[test]
fn openai_chat_body_with_options() {
    let r = openai::chat_completion_request("K", &chat(Some("0.7"), Some(50)));
    assert_eq!(
        r.body.unwrap(),
        r#"{"model":"gpt-4","messages":[{"role":"system","content":"Be brief."},{"role":"user","content":"hi"}],"temperature":0.7,"max_tokens":50}"#
    );
    let empty = ChatCompletion { messages: vec![], ..chat(None, Some(0)) };
    assert_eq!(
        openai::chat_completion_request("K", &empty).body.unwrap(),
        r#"{"model":"gpt-4","messages":[],"max_tokens":0}"#
    );
}

#[test]
fn openai_embedding_request_body() {
    let e = Embedding { model: "text-embedding-ada-002".into(), input: "Hello, world!".into() };
    let r = openai::embedding_request("K", &e);
    assert_eq!(r.method, Method::Post);
    assert_eq!(r.url, "https://api.openai.com/v1/embeddings");
    assert_eq!(r.body, Some(r#"{"model":"text-embedding-ada-002","input":"Hello, world!"}"#.to_string()));
}

#[test]
fn decimal_numerals() {
    assert_eq!(decimal_text(0), "0");
    assert_eq!(decimal_text(7), "7");
    assert_eq!(decimal_text(10), "10");
    assert_eq!(decimal_text(u64::MAX), "18446744073709551615");
}

#[test]
fn quoting_escapes_control_and_quote_characters() {
    let r = discord::create_webhook_request("T", "C", "a\"b\\c\n");
    assert_eq!(r.body, Some("{\"name\":\"a\\\"b\\\\c\\n\"}".to_string()));
}

#[test]
fn json_numerals() {
    for good in ["0", "-0", "0.7", "1", "-12.5e+3", "2E-3", "10", "0e5"] {
        assert!(is_numeral(good), "{good}");
    }
    for bad in ["", "-", "01", ".5", "1.", "1e", "1e+", "+1", "NaN", "0.7,\"x\":1", "1 "] {
        assert!(!is_numeral(bad), "{bad}");
    }
}
