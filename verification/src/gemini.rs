//! Requests to the generative-language API and the reading of its replies.
//!
//! The HTTP exchange itself happens outside the library; here the prompt,
//! the endpoint and the request body are composed, and a reply (its status,
//! its raw text and its decoded body) is turned into an answer or an error.
use vstd::prelude::*;
use vstd::string::{StrSliceExecFns, StringExecFns};
use crate::hallucination::str_len;
use crate::text::{byte_len, chars_of, fit_prefix, fit_prefix_exec, str_eq};

verus! {

/// Tokens that one request consumed.
#[derive(Clone, Copy, Debug, Default)]
pub struct TokenUsage {
    pub input_tokens: u32,
    pub output_tokens: u32,
}

/// The `usageMetadata` of a reply.
#[derive(Clone, Copy, Debug, Default)]
pub struct UsageMetadata {
    pub prompt_token_count: u32,
    pub candidates_token_count: u32,
}

pub struct InlineData {
    pub mime_type: String,
    pub data: String,
}

pub enum Part {
    Text { text: String },
    InlineData { inline_data: InlineData },
}

pub struct Content {
    pub parts: Vec<Part>,
}

/// The body of a `generateContent` request.
pub struct GeminiRequest {
    pub contents: Vec<Content>,
}

pub struct ResponsePart {
    pub text: String,
}

pub struct CandidateContent {
    pub parts: Vec<ResponsePart>,
}

pub struct Candidate {
    pub content: CandidateContent,
}

pub struct GeminiError {
    pub message: String,
}

/// The decoded body of a reply.
pub struct GeminiResponse {
    pub candidates: Option<Vec<Candidate>>,
    pub error: Option<GeminiError>,
    pub usage_metadata: Option<UsageMetadata>,
}

/// A request part as plain text.
pub enum PartView {
    Text(Seq<char>),
    InlineData(Seq<char>, Seq<char>),
}

pub open spec fn part_view(p: Part) -> PartView {
    match p {
        Part::Text { text } => PartView::Text(text@),
        Part::InlineData { inline_data } => PartView::InlineData(
            inline_data.mime_type@,
            inline_data.data@,
        ),
    }
}

/// A request as the sequence of its contents, each a sequence of parts.
pub open spec fn request_view(r: GeminiRequest) -> Seq<Seq<PartView>> {
    r.contents@.map_values(|c: Content| c.parts@.map_values(|p: Part| part_view(p)))
}

/// Token counts of a reply; zero where the reply carries none.
pub open spec fn usage_of(m: Option<UsageMetadata>) -> TokenUsage {
    match m {
        Some(m) => TokenUsage {
            input_tokens: m.prompt_token_count,
            output_tokens: m.candidates_token_count,
        },
        None => TokenUsage { input_tokens: 0, output_tokens: 0 },
    }
}

pub fn extract_usage(metadata: Option<UsageMetadata>) -> (r: TokenUsage)
    ensures
        r == usage_of(metadata),
{
    match metadata {
        Some(m) => TokenUsage {
            input_tokens: m.prompt_token_count,
            output_tokens: m.candidates_token_count,
        },
        None => TokenUsage { input_tokens: 0, output_tokens: 0 },
    }
}

// ---------------------------------------------------------------------------
// Prompts, endpoint, request bodies
// ---------------------------------------------------------------------------

/// The sentence that asks for answers in a given language; nothing for
/// "auto" or an empty setting.
pub open spec fn language_instruction_of(lang: Seq<char>) -> Seq<char> {
    if lang == "auto"@ || lang == ""@ {
        seq![]
    } else {
        "\n\nIMPORTANT: You MUST respond in "@ + lang + "."@
    }
}

pub fn language_instruction(response_language: &str) -> (r: String)
    ensures
        r@ == language_instruction_of(response_language@),
{
    if str_eq(response_language, "auto") || str_eq(response_language, "") {
        String::new()
    } else {
        let mut s = "\n\nIMPORTANT: You MUST respond in ".to_owned();
        s.append(response_language);
        s.append(".");
        s
    }
}

/// The prompt sent with a screenshot.
pub fn screenshot_prompt(prompt: &str, response_language: &str) -> (r: String)
    ensures
        r@ == prompt@ + language_instruction_of(response_language@),
{
    let instruction = language_instruction(response_language);
    let mut s = prompt.to_owned();
    s.append(instruction.as_str());
    s
}

/// The prompt sent with a transcription.
pub fn transcription_prompt(prompt: &str, response_language: &str, text: &str) -> (r: String)
    ensures
        r@ == prompt@ + language_instruction_of(response_language@) + "\n\nTranscription:\n"@
            + text@,
{
    let mut s = screenshot_prompt(prompt, response_language);
    s.append("\n\nTranscription:\n");
    s.append(text);
    s
}

pub open spec fn endpoint_of(model: Seq<char>, api_key: Seq<char>) -> Seq<char> {
    "https://generativelanguage.googleapis.com/v1beta/models/"@ + model
        + ":generateContent?key="@ + api_key
}

/// The URL of the `generateContent` call for a model.
pub fn endpoint_url(model: &str, api_key: &str) -> (r: String)
    ensures
        r@ == endpoint_of(model@, api_key@),
{
    let mut s = "https://generativelanguage.googleapis.com/v1beta/models/".to_owned();
    s.append(model);
    s.append(":generateContent?key=");
    s.append(api_key);
    s
}

/// A request carrying an image (as base64 JPEG data) followed by a prompt.
pub fn image_request(base64_image: &str, full_prompt: &str) -> (r: GeminiRequest)
    ensures
        request_view(r) == seq![
            seq![
                PartView::InlineData("image/jpeg"@, base64_image@),
                PartView::Text(full_prompt@),
            ],
        ],
{
    let mut parts: Vec<Part> = Vec::new();
    parts.push(
        Part::InlineData {
            inline_data: InlineData {
                mime_type: "image/jpeg".to_owned(),
                data: base64_image.to_owned(),
            },
        },
    );
    parts.push(Part::Text { text: full_prompt.to_owned() });
    let mut contents: Vec<Content> = Vec::new();
    contents.push(Content { parts });
    let r = GeminiRequest { contents };
    assert(request_view(r)[0] =~= seq![
        PartView::InlineData("image/jpeg"@, base64_image@),
        PartView::Text(full_prompt@),
    ]);
    assert(request_view(r) =~= seq![
        seq![PartView::InlineData("image/jpeg"@, base64_image@), PartView::Text(full_prompt@)],
    ]);
    r
}

/// A request carrying a prompt alone.
pub fn text_request(full_prompt: &str) -> (r: GeminiRequest)
    ensures
        request_view(r) == seq![seq![PartView::Text(full_prompt@)]],
{
    let mut parts: Vec<Part> = Vec::new();
    parts.push(Part::Text { text: full_prompt.to_owned() });
    let mut contents: Vec<Content> = Vec::new();
    contents.push(Content { parts });
    let r = GeminiRequest { contents };
    assert(request_view(r)[0] =~= seq![PartView::Text(full_prompt@)]);
    assert(request_view(r) =~= seq![seq![PartView::Text(full_prompt@)]]);
    r
}

// ---------------------------------------------------------------------------
// Replies
// ---------------------------------------------------------------------------

/// The text of the first part of the first candidate, if there is one.
pub open spec fn first_text(body: GeminiResponse) -> Option<Seq<char>> {
    match body.candidates {
        Some(c) => if c@.len() > 0 && c@[0].content.parts@.len() > 0 {
            Some(c@[0].content.parts@[0].text@)
        } else {
            None
        },
        None => None,
    }
}

pub fn first_candidate_text(body: &GeminiResponse) -> (r: Option<String>)
    ensures
        match r {
            Some(t) => first_text(*body) == Some(t@),
            None => first_text(*body) is None,
        },
{
    match &body.candidates {
        Some(c) => {
            if c.len() > 0 && c[0].content.parts.len() > 0 {
                Some(c[0].content.parts[0].text.clone())
            } else {
                None
            }
        },
        None => None,
    }
}

/// The limit, in bytes, of the raw reply quoted in an error.
pub const EXCERPT_BYTES: usize = 300;

/// The first 300 bytes of a raw reply (all of it when shorter).
pub open spec fn excerpt(raw: Seq<char>) -> Seq<char> {
    if str_len(raw) <= 300 {
        raw
    } else {
        raw.take(fit_prefix(raw, 300) as int)
    }
}

/// Cutting the raw reply at 300 bytes does not split a character.
pub open spec fn excerpt_cut_ok(raw: Seq<char>) -> bool {
    str_len(raw) <= 300 || byte_len(raw.take(fit_prefix(raw, 300) as int)) == 300
}

pub fn reply_excerpt(raw: &str) -> (r: &str)
    requires
        excerpt_cut_ok(raw@),
    ensures
        r@ == excerpt(raw@),
{
    if raw.len() <= EXCERPT_BYTES {
        raw
    } else {
        let cs = chars_of(raw);
        let k = fit_prefix_exec(&cs, EXCERPT_BYTES);
        raw.substring_char(0, k)
    }
}

pub open spec fn api_error_of(status: Seq<char>, detail: Seq<char>) -> Seq<char> {
    "Gemini API error ("@ + status + "): "@ + detail
}

pub fn api_error(status: &str, detail: &str) -> (r: String)
    ensures
        r@ == api_error_of(status@, detail@),
{
    let mut s = "Gemini API error (".to_owned();
    s.append(status);
    s.append("): ");
    s.append(detail);
    s
}

pub open spec fn parse_error_of(e: Seq<char>) -> Seq<char> {
    "Failed to parse response: "@ + e
}

pub open spec fn empty_reply_error() -> Seq<char> {
    "Empty response from Gemini"@
}

/// What a screenshot request yields from a reply: the decoded error message
/// or the start of the raw reply when the status is not a success; the
/// parser's complaint when the body does not decode; an error when the
/// answer is missing or empty; otherwise the answer and its token counts.
pub open spec fn image_reply_outcome(
    status_ok: bool,
    status: Seq<char>,
    raw: Seq<char>,
    parsed: Result<GeminiResponse, String>,
) -> Result<(Seq<char>, TokenUsage), Seq<char>> {
    if !status_ok {
        match parsed {
            Ok(body) => match body.error {
                Some(e) => Err(api_error_of(status, e.message@)),
                None => Err(api_error_of(status, excerpt(raw))),
            },
            Err(_) => Err(api_error_of(status, excerpt(raw))),
        }
    } else {
        match parsed {
            Err(e) => Err(parse_error_of(e@)),
            Ok(body) => match first_text(body) {
                Some(t) => if t.len() == 0 {
                    Err(empty_reply_error())
                } else {
                    Ok((t, usage_of(body.usage_metadata)))
                },
                None => Err(empty_reply_error()),
            },
        }
    }
}

/// What a text request yields from a reply: the start of the raw reply when
/// the status is not a success; the parser's complaint when the body does
/// not decode; an error when there is no answer; otherwise the answer (which
/// may be empty) and its token counts.
pub open spec fn text_reply_outcome(
    status_ok: bool,
    status: Seq<char>,
    raw: Seq<char>,
    parsed: Result<GeminiResponse, String>,
) -> Result<(Seq<char>, TokenUsage), Seq<char>> {
    if !status_ok {
        Err(api_error_of(status, excerpt(raw)))
    } else {
        match parsed {
            Err(e) => Err(parse_error_of(e@)),
            Ok(body) => match first_text(body) {
                Some(t) => Ok((t, usage_of(body.usage_metadata))),
                None => Err(empty_reply_error()),
            },
        }
    }
}

/// A successful reply yields the first candidate's text together with the
/// reply's own token counts (zero only when the reply carries none), and a
/// screenshot answer with text is never turned into an error.
pub proof fn lemma_answers_carry_their_token_counts(
    status: Seq<char>,
    raw: Seq<char>,
    body: GeminiResponse,
)
    ensures
        image_reply_outcome(true, status, raw, Ok(body)) matches Ok((t, u)) ==> {
            &&& body.candidates matches Some(c) && c@.len() > 0 && c@[0].content.parts@.len() > 0
                && t == c@[0].content.parts@[0].text@
            &&& body.usage_metadata matches Some(m) ==> u.input_tokens == m.prompt_token_count
                && u.output_tokens == m.candidates_token_count
            &&& body.usage_metadata is None ==> u.input_tokens == 0 && u.output_tokens == 0
        },
        text_reply_outcome(true, status, raw, Ok(body)) matches Ok((t, u)) ==> {
            &&& body.candidates matches Some(c) && c@.len() > 0 && c@[0].content.parts@.len() > 0
                && t == c@[0].content.parts@[0].text@
            &&& body.usage_metadata matches Some(m) ==> u.input_tokens == m.prompt_token_count
                && u.output_tokens == m.candidates_token_count
            &&& body.usage_metadata is None ==> u.input_tokens == 0 && u.output_tokens == 0
        },
        (body.candidates matches Some(c) && c@.len() > 0 && c@[0].content.parts@.len() > 0
            && c@[0].content.parts@[0].text@.len() > 0) ==> image_reply_outcome(
            true,
            status,
            raw,
            Ok(body),
        ) is Ok && text_reply_outcome(true, status, raw, Ok(body)) is Ok,
{
}

pub open spec fn outcome_view(r: Result<(String, TokenUsage), String>) -> Result<
    (Seq<char>, TokenUsage),
    Seq<char>,
> {
    match r {
        Ok((t, u)) => Ok((t@, u)),
        Err(e) => Err(e@),
    }
}

/// The excerpt is only quoted when the status is not a success.
pub open spec fn reply_readable(status_ok: bool, raw: Seq<char>) -> bool {
    status_ok || excerpt_cut_ok(raw)
}

/// A screenshot reply quotes the excerpt only when the status is not a
/// success and the body carries no error message.
pub open spec fn image_reply_readable(
    status_ok: bool,
    raw: Seq<char>,
    parsed: Result<GeminiResponse, String>,
) -> bool {
    reply_readable(status_ok, raw) || (parsed matches Ok(body) && body.error is Some)
}

fn parse_failure(e: &String) -> (r: String)
    ensures
        r@ == parse_error_of(e@),
{
    let mut s = "Failed to parse response: ".to_owned();
    s.append(e.as_str());
    s
}

/// The answer to a screenshot request.
pub fn image_reply(
    status_ok: bool,
    status: &str,
    raw: &str,
    parsed: Result<GeminiResponse, String>,
) -> (r: Result<(String, TokenUsage), String>)
    requires
        image_reply_readable(status_ok, raw@, parsed),
    ensures
        outcome_view(r) == image_reply_outcome(status_ok, status@, raw@, parsed),
        status_ok ==> (parsed matches Ok(body) ==> (r matches Ok((t, u)) ==> {
            &&& body.candidates matches Some(c) && c@.len() > 0 && c@[0].content.parts@.len() > 0
                && t@ == c@[0].content.parts@[0].text@
            &&& body.usage_metadata matches Some(m) ==> u.input_tokens == m.prompt_token_count
                && u.output_tokens == m.candidates_token_count
            &&& body.usage_metadata is None ==> u.input_tokens == 0 && u.output_tokens == 0
        })),
{
    if !status_ok {
        if let Ok(body) = &parsed {
            if let Some(err) = &body.error {
                return Err(api_error(status, err.message.as_str()));
            }
        }
        return Err(api_error(status, reply_excerpt(raw)));
    }
    match parsed {
        Err(e) => Err(parse_failure(&e)),
        Ok(body) => {
            let usage = extract_usage(body.usage_metadata);
            match first_candidate_text(&body) {
                Some(t) => {
                    if t.as_str().is_empty() {
                        Err("Empty response from Gemini".to_owned())
                    } else {
                        Ok((t, usage))
                    }
                },
                None => Err("Empty response from Gemini".to_owned()),
            }
        },
    }
}

/// The answer to a text request.
pub fn text_reply(
    status_ok: bool,
    status: &str,
    raw: &str,
    parsed: Result<GeminiResponse, String>,
) -> (r: Result<(String, TokenUsage), String>)
    requires
        reply_readable(status_ok, raw@),
    ensures
        outcome_view(r) == text_reply_outcome(status_ok, status@, raw@, parsed),
        status_ok ==> (parsed matches Ok(body) ==> (r matches Ok((t, u)) ==> {
            &&& body.candidates matches Some(c) && c@.len() > 0 && c@[0].content.parts@.len() > 0
                && t@ == c@[0].content.parts@[0].text@
            &&& body.usage_metadata matches Some(m) ==> u.input_tokens == m.prompt_token_count
                && u.output_tokens == m.candidates_token_count
            &&& body.usage_metadata is None ==> u.input_tokens == 0 && u.output_tokens == 0
        })),
{
    if !status_ok {
        return Err(api_error(status, reply_excerpt(raw)));
    }
    match parsed {
        Err(e) => Err(parse_failure(&e)),
        Ok(body) => {
            let usage = extract_usage(body.usage_metadata);
            match first_candidate_text(&body) {
                Some(t) => Ok((t, usage)),
                None => Err("Empty response from Gemini".to_owned()),
            }
        },
    }
}

} // verus!
