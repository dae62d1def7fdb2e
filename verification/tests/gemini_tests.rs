use phantom::gemini::{
    endpoint_url, extract_usage, image_reply, image_request, language_instruction, reply_excerpt,
    screenshot_prompt, text_reply, text_request, transcription_prompt, Candidate, CandidateContent,
    GeminiError, GeminiResponse, Part, ResponsePart, UsageMetadata,
};

fn body(texts: &[&str], usage: Option<UsageMetadata>) -> GeminiResponse {
    GeminiResponse {
        candidates: Some(vec![Candidate {
            content: CandidateContent {
                parts: texts.iter().map(|t| ResponsePart { text: t.to_string() }).collect(),
            },
        }]),
        error: None,
        usage_metadata: usage,
    }
}

#[test]
fn language_instruction_only_for_a_set_language() {
    assert_eq!(language_instruction("auto"), "");
    assert_eq!(language_instruction(""), "");
    assert_eq!(
        language_instruction("Portuguese"),
        "\n\nIMPORTANT: You MUST respond in Portuguese."
    );
}

#[test]
fn prompts_are_composed() {
    assert_eq!(screenshot_prompt("Answer.", "auto"), "Answer.");
    assert_eq!(
        screenshot_prompt("Answer.", "English"),
        "Answer.\n\nIMPORTANT: You MUST respond in English."
    );
    assert_eq!(
        transcription_prompt("Help.", "auto", "what is two plus two"),
        "Help.\n\nTranscription:\nwhat is two plus two"
    );
}

#[test]
fn endpoint_names_model_and_key() {
    assert_eq!(
        endpoint_url("gemini-2.5-flash", "K"),
        "https://generativelanguage.googleapis.com/v1beta/models/gemini-2.5-flash:generateContent?key=K"
    );
}

#[test]
fn request_bodies() {
    let r = image_request("AAAA", "Describe");
    assert_eq!(r.contents.len(), 1);
    assert_eq!(r.contents[0].parts.len(), 2);
    match &r.contents[0].parts[0] {
        Part::InlineData { inline_data } => {
            assert_eq!(inline_data.mime_type, "image/jpeg");
            assert_eq!(inline_data.data, "AAAA");
        }
        _ => panic!("image first"),
    }
    match &r.contents[0].parts[1] {
        Part::Text { text } => assert_eq!(text, "Describe"),
        _ => panic!("prompt second"),
    }
    let t = text_request("Hi");
    assert_eq!(t.contents.len(), 1);
    assert_eq!(t.contents[0].parts.len(), 1);
}

#[test]
fn usage_defaults_to_zero() {
    let u = extract_usage(None);
    assert_eq!((u.input_tokens, u.output_tokens), (0, 0));
    let u = extract_usage(Some(UsageMetadata { prompt_token_count: 12, candidates_token_count: 34 }));
    assert_eq!((u.input_tokens, u.output_tokens), (12, 34));
}

#[test]
fn text_reply_success_carries_usage() {
    let r = text_reply(
        true,
        "200 OK",
        "{}",
        Ok(body(&["four", "ignored"], Some(UsageMetadata { prompt_token_count: 5, candidates_token_count: 1 }))),
    );
    let (text, usage) = r.ok().unwrap();
    assert_eq!(text, "four");
    assert_eq!((usage.input_tokens, usage.output_tokens), (5, 1));
}

#[test]
fn text_reply_errors() {
    assert_eq!(
        text_reply(false, "400 Bad Request", "bad key", Err("unused".to_string())).err(),
        Some("Gemini API error (400 Bad Request): bad key".to_string())
    );
    assert_eq!(
        text_reply(true, "200 OK", "nope", Err("expected value".to_string())).err(),
        Some("Failed to parse response: expected value".to_string())
    );
    let no_candidates = GeminiResponse { candidates: None, error: None, usage_metadata: None };
    assert_eq!(
        text_reply(true, "200 OK", "{}", Ok(no_candidates)).err(),
        Some("Empty response from Gemini".to_string())
    );
    let (text, _) = text_reply(true, "200 OK", "{}", Ok(body(&[""], None))).ok().unwrap();
    assert_eq!(text, "");
}

#[test]
fn image_reply_prefers_the_decoded_error() {
    let err_body = GeminiResponse {
        candidates: None,
        error: Some(GeminiError { message: "quota exceeded".to_string() }),
        usage_metadata: None,
    };
    assert_eq!(
        image_reply(false, "429 Too Many Requests", "{...}", Ok(err_body)).err(),
        Some("Gemini API error (429 Too Many Requests): quota exceeded".to_string())
    );
    assert_eq!(
        image_reply(false, "500 Internal Server Error", "oops", Err("x".to_string())).err(),
        Some("Gemini API error (500 Internal Server Error): oops".to_string())
    );
}

#[test]
fn image_reply_rejects_empty_answers() {
    assert_eq!(
        image_reply(true, "200 OK", "{}", Ok(body(&[""], None))).err(),
        Some("Empty response from Gemini".to_string())
    );
    let (text, _) = image_reply(true, "200 OK", "{}", Ok(body(&["yes"], None))).ok().unwrap();
    assert_eq!(text, "yes");
}

#[test]
fn long_replies_are_cut_at_300_bytes() {
    let raw = "x".repeat(450);
    assert_eq!(reply_excerpt(&raw).len(), 300);
    assert_eq!(reply_excerpt("short"), "short");
    let err = text_reply(false, "502 Bad Gateway", &raw, Err(String::new())).err().unwrap();
    assert_eq!(err, format!("Gemini API error (502 Bad Gateway): {}", "x".repeat(300)));
}
