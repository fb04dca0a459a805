//! Building the language-model request for a document's text, and reading
//! its reply into a categorized vocabulary.
use vstd::prelude::*;
use vstd::string::*;

verus! {

/// A named group of terms, in the order the model gave them.
#[derive(Debug, Clone, PartialEq, Eq)]
pub struct ExtractedCategory {
    pub name: String,
    pub terms: Vec<String>,
}

/// The categories found in a document, and a display name suggested for it.
#[derive(Debug, Clone, PartialEq, Eq)]
pub struct ExtractedVocabulary {
    pub categories: Vec<ExtractedCategory>,
    pub suggested_name: String,
}

/// At most this many characters of a document's text are sent.
pub const MAX_TEXT_CHARS: usize = 60000;

/// The model that is asked.
pub const MODEL: &'static str = "gpt-4o-mini";

/// The budget of output tokens that the request declares.
pub const MAX_OUTPUT_TOKENS: u32 = 4096;

/// The response format that the request asks for.
pub const RESPONSE_FORMAT: &'static str = "json_object";

/// The chat-completions endpoint that receives the request.
pub const API_URL: &'static str = "https://api.openai.com/v1/chat/completions";

/// What the user message says before the document's text.
pub const USER_PREFIX: &'static str = "Extract domain-specific terms from this document:\n\n";

/// The fixed system instruction: the taxonomy of categories and the rules for terms.
pub const EXTRACTION_PROMPT: &'static str = "You extract domain-specific terms from documents to improve speech-to-text accuracy.

Extract terms in these categories:
1. Drug Names \u{2014} Generic names, brand names, drug classes
2. Medical Terms \u{2014} Conditions, procedures, biomarkers
3. Acronyms \u{2014} Medical and business abbreviations  
4. Industry Terms \u{2014} Specialized terminology
5. Organizations \u{2014} Company names, institutions

Guidelines:
- Focus on terms speech-to-text might misrecognize
- Include multi-word phrases (up to 6 words)
- Exclude common words like \"patient\", \"treatment\"
- Prioritize proper nouns, acronyms, drug names

Return JSON:
{
  \"categories\": [
    {\"name\": \"Drug Names\", \"terms\": [\"term1\", \"term2\"]},
    {\"name\": \"Medical Terms\", \"terms\": [...]}
  ],
  \"suggested_name\": \"Name based on document content\"
}

Only return valid JSON. Omit empty categories. Aim for 20-150 terms.";

/// One message of a chat request.
#[derive(Debug, Clone, PartialEq, Eq)]
pub struct ChatMessage {
    pub role: String,
    pub content: String,
}

/// A chat request: model, output budget, response format and messages.
#[derive(Debug, Clone, PartialEq, Eq)]
pub struct ChatRequest {
    pub model: String,
    pub max_tokens: u32,
    pub response_format: String,
    pub messages: Vec<ChatMessage>,
}

/// The text that is sent of a document: its first `MAX_TEXT_CHARS` characters.
pub open spec fn truncated(text: Seq<char>) -> Seq<char> {
    if text.len() > MAX_TEXT_CHARS {
        text.subrange(0, MAX_TEXT_CHARS as int)
    } else {
        text
    }
}

/// The content of the user message for a document's text.
pub open spec fn user_content(text: Seq<char>) -> Seq<char> {
    USER_PREFIX@ + truncated(text)
}

/// The text that is sent of a document: a hard cut after `MAX_TEXT_CHARS`
/// characters, on no word or sentence boundary.
pub fn truncate_text(text: &str) -> (r: String)
    ensures
        r@ == truncated(text@),
{
    let n = text.unicode_len();
    if n > MAX_TEXT_CHARS {
        text.substring_char(0, MAX_TEXT_CHARS).to_string()
    } else {
        text.to_string()
    }
}

/// The request for a document's text: the system instruction, then the user
/// message with the possibly truncated text, for the fixed model, output
/// budget and JSON-object response format.
pub fn build_request(text: &str) -> (r: ChatRequest)
    ensures
        r.model@ == MODEL@,
        r.max_tokens == MAX_OUTPUT_TOKENS,
        r.response_format@ == RESPONSE_FORMAT@,
        r.messages@.len() == 2,
        r.messages@[0].role@ == "system"@,
        r.messages@[0].content@ == EXTRACTION_PROMPT@,
        r.messages@[1].role@ == "user"@,
        r.messages@[1].content@ == user_content(text@),
{
    let mut content = String::from_str(USER_PREFIX);
    let cut = truncate_text(text);
    content.append(cut.as_str());
    let system = ChatMessage {
        role: String::from_str("system"),
        content: String::from_str(EXTRACTION_PROMPT),
    };
    let user = ChatMessage { role: String::from_str("user"), content };
    ChatRequest {
        model: String::from_str(MODEL),
        max_tokens: MAX_OUTPUT_TOKENS,
        response_format: String::from_str(RESPONSE_FORMAT),
        messages: vec![system, user],
    }
}

/// The value of the Authorization header for a credential.
pub fn bearer_header(api_key: &str) -> (r: String)
    ensures
        r@ == "Bearer "@ + api_key@,
{
    let mut r = String::from_str("Bearer ");
    r.append(api_key);
    r
}

/// A request's user message holds the instruction prefix and at most
/// `MAX_TEXT_CHARS` characters of the text, cut exactly at that count.
pub proof fn lemma_user_message_bounded(text: Seq<char>)
    ensures
        user_content(text).len() <= USER_PREFIX@.len() + MAX_TEXT_CHARS,
        text.len() > MAX_TEXT_CHARS ==> user_content(text) == USER_PREFIX@ + text.subrange(
            0,
            MAX_TEXT_CHARS as int,
        ),
        text.len() <= MAX_TEXT_CHARS ==> user_content(text) == USER_PREFIX@ + text,
{
}

/// Why no vocabulary came back for a document.
#[derive(Debug, Clone, PartialEq, Eq)]
pub enum MiningError {
    /// The request could not be sent or no reply arrived; holds the cause.
    Transport(String),
    /// The service answered with a status outside 200 to 299; holds the status
    /// and the raw body.
    Api { status: u16, body: String },
    /// The reply is not the expected envelope of choices; holds the cause.
    Envelope(String),
    /// The envelope holds no choice.
    EmptyOutput,
    /// The model's content is not JSON of the vocabulary's shape; holds the cause.
    MalformedTerms(String),
}

/// The character of a decimal digit.
pub open spec fn digit_char(d: nat) -> char {
    if d == 0 { '0' }
    else if d == 1 { '1' }
    else if d == 2 { '2' }
    else if d == 3 { '3' }
    else if d == 4 { '4' }
    else if d == 5 { '5' }
    else if d == 6 { '6' }
    else if d == 7 { '7' }
    else if d == 8 { '8' }
    else { '9' }
}

/// The decimal digits of a number, most significant first, without leading zeros.
pub open spec fn decimal_of(n: nat) -> Seq<char>
    decreases n,
{
    if n < 10 {
        seq![digit_char(n)]
    } else {
        decimal_of(n / 10) + seq![digit_char(n % 10)]
    }
}

fn digit_text(d: u16) -> (r: &'static str)
    requires
        d < 10,
    ensures
        r@ == seq![digit_char(d as nat)],
{
    proof {
        reveal_strlit("0");
        reveal_strlit("1");
        reveal_strlit("2");
        reveal_strlit("3");
        reveal_strlit("4");
        reveal_strlit("5");
        reveal_strlit("6");
        reveal_strlit("7");
        reveal_strlit("8");
        reveal_strlit("9");
    }
    let r = match d {
        0 => "0",
        1 => "1",
        2 => "2",
        3 => "3",
        4 => "4",
        5 => "5",
        6 => "6",
        7 => "7",
        8 => "8",
        _ => "9",
    };
    assert(r@ =~= seq![digit_char(d as nat)]);
    r
}

/// A number written in decimal.
pub fn decimal(n: u16) -> (r: String)
    ensures
        r@ == decimal_of(n as nat),
    decreases n,
{
    if n < 10 {
        String::from_str(digit_text(n))
    } else {
        let mut r = decimal(n / 10);
        r.append(digit_text(n % 10));
        r
    }
}

impl MiningError {
    /// The message that describes the error to a user.
    pub open spec fn text(self) -> Seq<char> {
        match self {
            MiningError::Transport(c) => "Request failed: "@ + c@,
            MiningError::Api { status, body } => "OpenAI API error "@ + decimal_of(status as nat)
                + ": "@ + body@,
            MiningError::Envelope(c) => "Failed to parse response: "@ + c@,
            MiningError::EmptyOutput => "No response from model"@,
            MiningError::MalformedTerms(c) => "Failed to parse terms: "@ + c@,
        }
    }

    /// The message that describes the error to a user.
    pub fn message(&self) -> (r: String)
        ensures
            r@ == self.text(),
    {
        match self {
            MiningError::Transport(c) => {
                let mut r = String::from_str("Request failed: ");
                r.append(c.as_str());
                r
            },
            MiningError::Api { status, body } => {
                let mut r = String::from_str("OpenAI API error ");
                let digits = decimal(*status);
                r.append(digits.as_str());
                r.append(": ");
                r.append(body.as_str());
                r
            },
            MiningError::Envelope(c) => {
                let mut r = String::from_str("Failed to parse response: ");
                r.append(c.as_str());
                r
            },
            MiningError::EmptyOutput => String::from_str("No response from model"),
            MiningError::MalformedTerms(c) => {
                let mut r = String::from_str("Failed to parse terms: ");
                r.append(c.as_str());
                r
            },
        }
    }
}

/// Whether an HTTP status reports success.
pub open spec fn is_success(status: u16) -> bool {
    200 <= status < 300
}

/// Accepts a reply from its status and the outcome of reading its body.
///
/// Any status outside 200 to 299 is an `Api` error that carries the status
/// and the raw body, whatever the body holds (empty where it could not be
/// read). On success, a body that could not be read is an `Envelope` error
/// carrying the cause.
pub fn check_status(status: u16, body: Result<String, String>) -> (r: Result<String, MiningError>)
    ensures
        !is_success(status) ==> match body {
            Ok(b) => r == Err::<String, MiningError>(MiningError::Api { status, body: b }),
            Err(_) => r matches Err(MiningError::Api { status: st, body: b }) && st == status
                && b@.len() == 0,
        },
        is_success(status) ==> match body {
            Ok(b) => r == Ok::<String, MiningError>(b),
            Err(cause) => r == Err::<String, MiningError>(MiningError::Envelope(cause)),
        },
{
    if 200 <= status && status < 300 {
        match body {
            Ok(b) => Ok(b),
            Err(cause) => Err(MiningError::Envelope(cause)),
        }
    } else {
        match body {
            Ok(b) => Err(MiningError::Api { status, body: b }),
            Err(_) => Err(MiningError::Api { status, body: String::new() }),
        }
    }
}

/// The model's content from the parsed envelope: the first choice's content.
///
/// An envelope that did not parse is an `Envelope` error with its cause; one
/// with no choice is `EmptyOutput`.
pub fn first_content(envelope: Result<Vec<String>, String>) -> (r: Result<String, MiningError>)
    ensures
        match envelope {
            Err(cause) => r == Err::<String, MiningError>(MiningError::Envelope(cause)),
            Ok(contents) => if contents@.len() == 0 {
                r == Err::<String, MiningError>(MiningError::EmptyOutput)
            } else {
                r == Ok::<String, MiningError>(contents@[0])
            },
        },
{
    match envelope {
        Err(cause) => Err(MiningError::Envelope(cause)),
        Ok(contents) => {
            if contents.len() == 0 {
                Err(MiningError::EmptyOutput)
            } else {
                let mut contents = contents;
                Ok(contents.swap_remove(0))
            }
        },
    }
}

/// The vocabulary from the parsed model content, taken whole: content that
/// did not parse into the vocabulary's shape is a `MalformedTerms` error.
pub fn accept_terms(parsed: Result<ExtractedVocabulary, String>) -> (r: Result<
    ExtractedVocabulary,
    MiningError,
>)
    ensures
        match parsed {
            Err(cause) => r == Err::<ExtractedVocabulary, MiningError>(
                MiningError::MalformedTerms(cause),
            ),
            Ok(v) => r == Ok::<ExtractedVocabulary, MiningError>(v),
        },
{
    match parsed {
        Err(cause) => Err(MiningError::MalformedTerms(cause)),
        Ok(v) => Ok(v),
    }
}

} // verus!
