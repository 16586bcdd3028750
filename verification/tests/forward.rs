use serde_json::Value;

use llm_wake_proxy::forward::{
    non_streaming_answer, relabel, rewrite_chunk, rewrite_model_alias, streaming_refusal,
    ForwardConfig, ForwardError, TransportFailure,
};

#[test]
fn test_rewrite_model_alias_non_streaming() {
    let json_body = r#"{"model":"llama-3-8b","choices":[]}"#;
    let rewritten = rewrite_model_alias(json_body, "my-custom-model");
    let parsed: Value = serde_json::from_str(&rewritten).unwrap();
    assert_eq!(parsed["model"], "my-custom-model");
}

#[test]
fn test_rewrite_model_alias_streaming() {
    let sse_chunk = r#"data: {"model":"llama-3-8b","choices":[]}"#;
    let rewritten = rewrite_model_alias(sse_chunk, "my-custom-model");
    assert!(
        rewritten.contains("my-custom-model"),
        "Expected model to be rewritten, got: {}",
        rewritten
    );
}

fn model_of(text: &str) -> String {
    let parsed: Value = serde_json::from_str(text).unwrap();
    parsed["model"].as_str().unwrap().to_string()
}

#[test]
fn bodies_that_do_not_name_a_model_are_left_alone() {
    for body in [
        "",
        "{ \"object\" : \"list\" }",
        "data: [DONE]\n\n",
        "line\r\n\r\nline",
        "{\"mod\\u0065l\":\"hidden\"}",
    ] {
        assert_eq!(rewrite_model_alias(body, "alias"), body);
    }
}

#[test]
fn every_line_of_a_stream_is_rewritten() {
    let chunk = concat_lines(&[
        "data: {\"model\":\"a\",\"n\":1}\r",
        "",
        "event: \"model\"",
        "data: {\"id\":\"x\", \"model\":\"b\"}",
        "data: {\"model\":",
        "data: [DONE]",
        "",
    ]);
    let rewritten = rewrite_model_alias(&chunk, "alias");
    assert_eq!(
        rewritten,
        concat_lines(&[
            "data: {\"model\":\"alias\",\"n\":1}\r",
            "",
            "event: \"model\"",
            "data: {\"id\":\"x\",\"model\":\"alias\"}",
            "data: {\"model\":",
            "data: [DONE]",
            "",
        ])
    );
}

fn concat_lines(lines: &[&str]) -> String {
    lines.join("\n")
}

#[test]
fn documents_that_only_mention_a_model_keep_their_content() {
    assert_eq!(
        rewrite_model_alias("[ {\"model\":\"inner\"} ]", "alias"),
        "[{\"model\":\"inner\"}]"
    );
    assert_eq!(
        rewrite_model_alias("{\"text\":\"\\\"model\\\"\", \"b\":{\"model\":1}}", "alias"),
        "{\"b\":{\"model\":1},\"text\":\"\\\"model\\\"\"}"
    );
}

#[test]
fn an_alias_is_escaped_where_it_has_to_be() {
    let rewritten = rewrite_model_alias("{\"model\":null}", "a\"b\nc");
    assert_eq!(rewritten, "{\"model\":\"a\\\"b\\nc\"}");
    assert_eq!(model_of(&rewritten), "a\"b\nc");
}

#[test]
fn a_rewritten_body_has_as_many_lines_as_before() {
    let body = "{\"model\":\"x\"}\n\n{\"model\":\"y\"}\r\n";
    let rewritten = rewrite_model_alias(body, "a\nb");
    assert_eq!(rewritten.split('\n').count(), body.split('\n').count());
}

#[test]
fn deep_documents_are_read_up_to_a_limit() {
    let nest = |levels: usize| {
        format!(
            "{{\"model\":\"x\",\"v\":{}{}}}",
            "[".repeat(levels - 1),
            "]".repeat(levels - 1)
        )
    };
    assert_eq!(model_of(&rewrite_model_alias(&nest(127), "alias")), "alias");
    assert_eq!(rewrite_model_alias(&nest(128), "alias"), nest(128));
}

#[test]
fn numbers_survive_rewriting() {
    let body = "{\"model\":\"x\",\"v\":[0,-1,18446744073709551615,-9223372036854775808,0.5,1e16,1.5e299,-2.5e-300]}";
    let rewritten = rewrite_model_alias(body, "alias");
    let before: Value = serde_json::from_str(body).unwrap();
    let after: Value = serde_json::from_str(&rewritten).unwrap();
    assert_eq!(after["model"], "alias");
    assert_eq!(after["v"].as_array().unwrap().len(), before["v"].as_array().unwrap().len());
    for i in 0..8 {
        assert!(after["v"][i].is_number());
    }
    assert_eq!(after["v"][2], before["v"][2]);
    assert_eq!(after["v"][3], before["v"][3]);
}

#[test]
fn relabelling_touches_the_model_only() {
    let value: Value = serde_json::from_str("{\"model\":[1],\"x\":{\"model\":2}}").unwrap();
    let relabelled = relabel(value, "alias");
    assert_eq!(relabelled.to_string(), "{\"model\":\"alias\",\"x\":{\"model\":2}}");
    assert_eq!(relabel(Value::from(3), "alias"), Value::from(3));
    assert_eq!(relabel(Value::Null, "alias"), Value::Null);
}

#[test]
fn chunks_are_rewritten_as_text() {
    assert_eq!(
        rewrite_chunk(b"data: {\"model\":\"x\"}\n\n", "alias"),
        b"data: {\"model\":\"alias\"}\n\n".to_vec()
    );
    assert_eq!(rewrite_chunk("gr\u{fc}n".as_bytes(), "alias"), "gr\u{fc}n".as_bytes().to_vec());
    assert_eq!(
        rewrite_chunk(b"a\xffb", "alias"),
        "a\u{fffd}b".as_bytes().to_vec()
    );
}

#[test]
fn answers_are_sorted_by_status_and_path() {
    let chat = "/v1/chat/completions";
    let embeddings = "/v1/embeddings";
    assert_eq!(
        non_streaming_answer(chat, 200, "{\"model\":\"x\"}".to_string(), "alias").unwrap(),
        "{\"model\":\"alias\"}"
    );
    assert_eq!(
        non_streaming_answer(chat, 299, "plain".to_string(), "alias").unwrap(),
        "plain"
    );
    match non_streaming_answer(chat, 404, "gone".to_string(), "alias") {
        Err(ForwardError::UpstreamError(404, message)) => assert_eq!(message, "gone"),
        other => panic!("unexpected answer {other:?}"),
    }
    assert!(matches!(
        non_streaming_answer(embeddings, 404, "gone".to_string(), "alias"),
        Err(ForwardError::EmbeddingsUnsupported)
    ));
    assert!(matches!(
        non_streaming_answer(embeddings, 500, "oops".to_string(), "alias"),
        Err(ForwardError::UpstreamError(500, _))
    ));
    assert!(matches!(
        non_streaming_answer(embeddings, 199, "early".to_string(), "alias"),
        Err(ForwardError::UpstreamError(199, _))
    ));
    assert!(streaming_refusal(204, String::new()).is_none());
    match streaming_refusal(404, "gone".to_string()) {
        Some(ForwardError::UpstreamError(404, message)) => assert_eq!(message, "gone"),
        other => panic!("unexpected refusal {other:?}"),
    }
}

#[test]
fn requests_that_fail_on_their_way() {
    let failure = TransportFailure {
        connect: false,
        timeout: false,
        status: None,
        message: "body error".to_string(),
    };
    match ForwardError::from_transport(failure.clone()) {
        ForwardError::UpstreamError(502, message) => assert_eq!(message, "body error"),
        other => panic!("unexpected error {other:?}"),
    }
    match ForwardError::from_transport(TransportFailure { status: Some(418), ..failure.clone() }) {
        ForwardError::UpstreamError(418, _) => {}
        other => panic!("unexpected error {other:?}"),
    }
    for (connect, timeout) in [(true, false), (false, true)] {
        let failure = TransportFailure { connect, timeout, status: Some(500), ..failure.clone() };
        assert!(matches!(
            ForwardError::from_transport(failure),
            ForwardError::UpstreamUnreachable
        ));
    }
}

#[test]
fn forwarding_errors_have_their_replies() {
    let cases = [
        (
            ForwardError::UpstreamUnreachable,
            503,
            "backend_unavailable",
            "upstream backend is not reachable",
        ),
        (
            ForwardError::UpstreamError(500, "boom".to_string()),
            503,
            "upstream_error",
            "boom",
        ),
        (ForwardError::Cancelled, 503, "request_cancelled", "request was cancelled"),
        (
            ForwardError::EmbeddingsUnsupported,
            400,
            "unsupported_embeddings",
            "upstream backend does not support embeddings",
        ),
    ];
    for (error, status, code, message) in cases {
        let reply = error.to_openai();
        assert_eq!(reply.status, status);
        assert_eq!(reply.code, code);
        assert_eq!(reply.message, message);
        assert_eq!(reply.retry_after, None);
        let body = reply.body();
        assert_eq!(body["error"]["message"], message);
        assert_eq!(body["error"]["type"], code);
        assert_eq!(body["error"]["code"], code);
        assert_eq!(body["error"]["param"], Value::Null);
        assert_eq!(body["error"].as_object().unwrap().len(), 4);
    }
}

#[test]
fn requests_are_forwarded_to_the_local_end_of_the_tunnel() {
    let config = ForwardConfig { port: 18080 };
    assert_eq!(config.url("/v1/embeddings"), "http://127.0.0.1:18080/v1/embeddings");
}

#[test]
fn documents_other_than_objects_keep_their_place_in_a_line() {
    assert_eq!(rewrite_model_alias("\"model\"", "alias"), "\"model\"");
    assert_eq!(
        rewrite_model_alias("data: [ \"model\", {\"model\": 1.5} ]\r", "alias"),
        "data: [\"model\",{\"model\":1.5}]\r"
    );
}
