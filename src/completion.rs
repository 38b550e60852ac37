//! The decisions around one chat-completion call: what is sent, and what the
//! provider's reply amounts to. Sending and receiving are left to the caller.
use vstd::prelude::*;
use crate::prompt::{occurs_in, ReportResponse};
use crate::text::{trim_text, trimmed};

verus! {

/// The configuration key that holds the provider credential.
pub const API_KEY_VAR: &'static str = "OPENAI_API_KEY";

/// The provider's chat-completion endpoint used unless configured otherwise.
pub const DEFAULT_ENDPOINT: &'static str = "https://api.openai.com/v1/chat/completions";

/// The model used unless configured otherwise.
pub const DEFAULT_MODEL: &'static str = "gpt-4o";

/// Who speaks a chat message.
#[derive(Debug, Clone, Copy, PartialEq, Eq)]
pub enum Role {
    System,
    User,
}

/// One message of the outbound conversation.
#[derive(Debug, Clone)]
pub struct ChatMessage {
    pub role: Role,
    pub content: String,
}

/// The outbound request body: the model and the conversation.
#[derive(Debug, Clone)]
pub struct ChatRequest {
    pub model: String,
    pub messages: Vec<ChatMessage>,
}

/// Provider settings, read once at startup.
#[derive(Debug, Clone)]
pub struct ProviderConfig {
    pub api_key: Option<String>,
    pub endpoint: String,
    pub model: String,
}

/// Everything the transport needs to make the call.
#[derive(Debug, Clone)]
pub struct OutboundCall {
    pub endpoint: String,
    pub bearer_token: String,
    pub request: ChatRequest,
}

/// What came back from the provider, as far as the transport can tell.
#[derive(Debug)]
pub enum ProviderReply {
    /// The request could not be sent or no response arrived.
    Unreachable(String),
    /// A response arrived with this status; `choices` holds the message content
    /// of each choice in order, or the reason the body did not parse.
    Answered { status: u16, choices: Result<Vec<String>, String> },
}

/// Why a completion failed.
#[derive(Debug, Clone, PartialEq, Eq)]
pub enum CompletionError {
    /// No provider credential is configured.
    MissingCredential,
    /// The call did not reach the provider.
    Transport(String),
    /// The provider answered with a status outside 200..=299.
    ProviderError(u16),
    /// The body of a successful answer did not have the expected shape.
    DecodeError(String),
    /// The provider answered with no choices.
    EmptyResponse,
}

pub open spec fn system_persona() -> Seq<char> {
    "You are a medical documentation expert. Please produce detailed, professional, and insurance-appropriate clinical narratives."@
}

pub open spec fn is_success(status: u16) -> bool {
    200 <= status && status <= 299
}

/// The completion text a reply amounts to, or the error it stands for.
pub open spec fn reply_outcome(reply: ProviderReply) -> Result<Seq<char>, CompletionError> {
    match reply {
        ProviderReply::Unreachable(m) => Err(CompletionError::Transport(m)),
        ProviderReply::Answered { status, choices } => {
            if !is_success(status) {
                Err(CompletionError::ProviderError(status))
            } else {
                match choices {
                    Err(m) => Err(CompletionError::DecodeError(m)),
                    Ok(c) => if c@.len() == 0 {
                        Err(CompletionError::EmptyResponse)
                    } else {
                        Ok(trimmed(c@[0]@))
                    },
                }
            }
        },
    }
}

impl ProviderConfig {
    /// The default endpoint and model, with the given credential.
    pub fn new(api_key: Option<String>) -> (r: ProviderConfig)
        ensures
            r.api_key == api_key,
            r.endpoint@ == DEFAULT_ENDPOINT@,
            r.model@ == DEFAULT_MODEL@,
    {
        ProviderConfig {
            api_key,
            endpoint: String::from_str(DEFAULT_ENDPOINT),
            model: String::from_str(DEFAULT_MODEL),
        }
    }
}

/// Shapes the call for `prompt`: fails with `MissingCredential` exactly when no
/// credential is configured, whatever the prompt; otherwise a system message with
/// the persona followed by a user message holding the prompt.
pub fn prepare_call(config: &ProviderConfig, prompt: String) -> (r: Result<OutboundCall, CompletionError>)
    ensures
        config.api_key is None <==> r is Err,
        r is Err ==> r->Err_0 == CompletionError::MissingCredential,
        r is Ok ==> {
            let call = r->Ok_0;
            &&& call.endpoint@ == config.endpoint@
            &&& call.bearer_token@ == config.api_key->Some_0@
            &&& call.request.model@ == config.model@
            &&& call.request.messages@.len() == 2
            &&& call.request.messages@[0].role == Role::System
            &&& call.request.messages@[0].content@ == system_persona()
            &&& call.request.messages@[1].role == Role::User
            &&& call.request.messages@[1].content@ == prompt@
        },
{
    match &config.api_key {
        None => Err(CompletionError::MissingCredential),
        Some(key) => {
            let system = ChatMessage {
                role: Role::System,
                content: String::from_str(
                    "You are a medical documentation expert. Please produce detailed, professional, and insurance-appropriate clinical narratives.",
                ),
            };
            let user = ChatMessage { role: Role::User, content: prompt };
            let messages = vec![system, user];
            Ok(
                OutboundCall {
                    endpoint: config.endpoint.clone(),
                    bearer_token: key.clone(),
                    request: ChatRequest { model: config.model.clone(), messages },
                },
            )
        },
    }
}

/// Reads the provider's reply: the trimmed content of the first choice, or the
/// error the reply stands for.
pub fn read_reply(reply: ProviderReply) -> (r: Result<String, CompletionError>)
    ensures
        r is Ok <==> reply_outcome(reply) is Ok,
        r is Ok ==> r->Ok_0@ == reply_outcome(reply)->Ok_0,
        r is Err ==> r->Err_0 == reply_outcome(reply)->Err_0,
{
    match reply {
        ProviderReply::Unreachable(m) => Err(CompletionError::Transport(m)),
        ProviderReply::Answered { status, choices } => {
            if status < 200 || status > 299 {
                Err(CompletionError::ProviderError(status))
            } else {
                match choices {
                    Err(m) => Err(CompletionError::DecodeError(m)),
                    Ok(c) => {
                        if c.len() == 0 {
                            Err(CompletionError::EmptyResponse)
                        } else {
                            Ok(trim_text(c[0].as_str()))
                        }
                    },
                }
            }
        },
    }
}

/// The decimal digit `d`, for `d` in 0..=9.
pub open spec fn digit_char(d: int) -> char {
    "0123456789"@[d]
}

/// The decimal notation of `n`, without leading zeros.
pub open spec fn decimal(n: nat) -> Seq<char>
    decreases n,
{
    if n < 10 {
        seq![digit_char(n as int)]
    } else {
        decimal(n / 10) + seq![digit_char((n % 10) as int)]
    }
}

/// The text that describes an error to an operator.
pub open spec fn error_message(e: CompletionError) -> Seq<char> {
    match e {
        CompletionError::MissingCredential => "OPENAI_API_KEY is not set in environment variables"@,
        CompletionError::Transport(m) => "Failed to send OpenAI request: "@ + m@,
        CompletionError::ProviderError(status) => "OpenAI API responded with non-success status: "@
            + decimal(status as nat),
        CompletionError::DecodeError(m) => "Failed to parse OpenAI response JSON: "@ + m@,
        CompletionError::EmptyResponse => "No choices returned in OpenAI response"@,
    }
}

/// Appends the decimal notation of `n`.
fn push_decimal(out: &mut String, n: u16)
    ensures
        final(out)@ == old(out)@ + decimal(n as nat),
    decreases n,
{
    if n >= 10 {
        push_decimal(out, n / 10);
    }
    let d = n % 10;
    let digits = "0123456789";
    proof {
        reveal_strlit("0123456789");
    }
    let digit = digits.substring_char(d as usize, d as usize + 1);
    assert(digit@ =~= seq![digit_char(d as int)]);
    out.append(digit);
}

impl CompletionError {
    /// Describes the error; the text for a missing credential names its
    /// configuration key.
    pub fn message(&self) -> (r: String)
        ensures
            r@ == error_message(*self),
            *self is MissingCredential ==> occurs_in(API_KEY_VAR@, r@),
    {
        match self {
            CompletionError::MissingCredential => {
                let r = String::from_str("OPENAI_API_KEY is not set in environment variables");
                proof {
                    reveal_strlit("OPENAI_API_KEY is not set in environment variables");
                    reveal_strlit("OPENAI_API_KEY");
                    assert(API_KEY_VAR@ == "OPENAI_API_KEY"@);
                    let n = API_KEY_VAR@.len() as int;
                    assert(r@.subrange(0, 0 + n) =~= API_KEY_VAR@);
                    assert(occurs_in(API_KEY_VAR@, r@));
                }
                r
            },
            CompletionError::Transport(m) => String::from_str("Failed to send OpenAI request: ").concat(
                m.as_str(),
            ),
            CompletionError::ProviderError(status) => {
                let mut r = String::from_str("OpenAI API responded with non-success status: ");
                push_decimal(&mut r, *status);
                r
            },
            CompletionError::DecodeError(m) => String::from_str(
                "Failed to parse OpenAI response JSON: ",
            ).concat(m.as_str()),
            CompletionError::EmptyResponse => String::from_str("No choices returned in OpenAI response"),
        }
    }
}

/// The report a reply amounts to: its trimmed completion text, or the error it
/// stands for.
pub fn report_from_reply(reply: ProviderReply) -> (r: Result<ReportResponse, CompletionError>)
    ensures
        r is Ok <==> reply_outcome(reply) is Ok,
        r is Ok ==> r->Ok_0.report@ == reply_outcome(reply)->Ok_0,
        r is Err ==> r->Err_0 == reply_outcome(reply)->Err_0,
{
    match read_reply(reply) {
        Ok(text) => Ok(ReportResponse { report: text }),
        Err(e) => Err(e),
    }
}

} // verus!
