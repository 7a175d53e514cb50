//! What is sent to a backend for one prompt, and what is taken from its
//! reply.

use vstd::prelude::*;
use crate::model::{ConfigError, Model};
use crate::shell::Shell;
use openai_api_rust::{Auth, Choice, Error, Message, Role, Usage};
use openai_api_rust::completions::Completion;

verus! {

/// The author of a chat message, as the client library has it.
#[verifier::external_type_specification]
pub struct ExRole(Role);

/// One chat message, as the client library has it.
#[verifier::external_type_specification]
pub struct ExMessage(Message);

/// The token counts of a reply, as the client library has them.
#[verifier::external_type_specification]
pub struct ExUsage(Usage);

/// One alternative of a reply, as the client library has it.
#[verifier::external_type_specification]
pub struct ExChoice(Choice);

/// A backend's reply, as the client library has it.
#[verifier::external_type_specification]
pub struct ExCompletion(Completion);

/// The client library's report of a request that failed.
#[verifier::external_type_specification]
pub struct ExError(Error);

/// The sampling temperature of every request, in tenths.
pub const TEMPERATURE_TENTHS: u8 = 5;

/// The largest number of tokens that a configuration may ask for.
pub const MAX_TOKENS_LIMIT: i32 = 4096;

/// The model to ask and the length allowed to its answer.
#[derive(Clone, Debug, PartialEq, Eq)]
pub struct Config {
    pub model: Model,
    pub max_tokens: i32,
}

/// The body of one chat-completion request.
#[derive(Debug)]
pub struct ChatRequest {
    pub model: String,
    pub messages: Vec<Message>,
    pub max_tokens: i32,
    /// The sampling temperature, in tenths.
    pub temperature_tenths: u8,
}

/// All that is needed to send one request: whom to ask, with which
/// credential, and what.
#[derive(Debug)]
pub struct Prepared {
    pub auth: Auth,
    pub endpoint: String,
    pub request: ChatRequest,
}

/// A request that the backend did not answer with a completion.
#[derive(Clone, Debug, PartialEq, Eq)]
pub enum BackendError {
    /// The backend answered with an error of its own.
    Api(String),
    /// The request did not get through, or its answer could not be read.
    Request(String),
}

/// Why a prompt could not be resolved to a command.
#[derive(Clone, Debug, PartialEq, Eq)]
pub enum ResolveError {
    /// The backend's identity could not be resolved; nothing was sent.
    Config(ConfigError),
    /// The request was sent and failed.
    Backend(BackendError),
}

impl Config {
    /// Whether the allowed length lies within the limits.
    pub open spec fn valid(&self) -> bool {
        0 < self.max_tokens <= MAX_TOKENS_LIMIT
    }

    /// Whether `request` is the request for `prompt`: a system message with
    /// the resolved system prompt, then a user message with the prompt as it
    /// was given, for the configured model and length, at the fixed
    /// temperature.
    pub open spec fn is_request_for(
        &self,
        shell: Shell,
        os: Seq<char>,
        prompt: Seq<char>,
        request: ChatRequest,
    ) -> bool {
        &&& request.model@ == self.model.model_name_text()
        &&& request.max_tokens == self.max_tokens
        &&& request.temperature_tenths == TEMPERATURE_TENTHS
        &&& request.messages@.len() == 2
        &&& request.messages@[0].role is System
        &&& request.messages@[0].content@ == self.model.system_prompt_text(shell, os)
        &&& request.messages@[1].role is User
        &&& request.messages@[1].content@ == prompt
    }

    /// Builds a configuration, if `max_tokens` lies within the limits.
    pub fn new(model: Model, max_tokens: i32) -> (made: Option<Config>)
        ensures
            made is Some <==> 0 < max_tokens <= MAX_TOKENS_LIMIT,
            made matches Some(config) ==> config.model == model && config.max_tokens
                == max_tokens,
    {
        if 0 < max_tokens && max_tokens <= MAX_TOKENS_LIMIT {
            Some(Config { model, max_tokens })
        } else {
            None
        }
    }

    /// Builds the request for `prompt`.
    pub fn chat_request(&self, shell: &Shell, os: &str, prompt: &str) -> (request: ChatRequest)
        ensures
            self.is_request_for(*shell, os@, prompt@, request),
    {
        let system = Message { role: Role::System, content: self.model.get_system_prompt(shell, os) };
        let user = Message { role: Role::User, content: prompt.to_owned() };
        let mut messages: Vec<Message> = Vec::new();
        messages.push(system);
        messages.push(user);
        ChatRequest {
            model: self.model.get_model_name(),
            messages,
            max_tokens: self.max_tokens,
            temperature_tenths: TEMPERATURE_TENTHS,
        }
    }

    /// Resolves the backend's identity and builds the request for `prompt`.
    /// It fails only for want of a credential, and never for a model that
    /// carries its own key.
    pub fn prepare(&self, shell: &Shell, os: &str, prompt: &str) -> (outcome: Result<
        Prepared,
        ConfigError,
    >)
        ensures
            self.model.own_key() is Some ==> outcome is Ok,
            outcome matches Ok(prepared) ==> {
                &&& prepared.endpoint@ == self.model.endpoint_text()
                &&& self.is_request_for(*shell, os@, prompt@, prepared.request)
                &&& prepared.auth.organization is None
                &&& self.model.own_key() matches Some(key) ==> prepared.auth.api_key@ == key
            },
    {
        match self.model.get_auth() {
            Ok(auth) => Ok(
                Prepared {
                    auth,
                    endpoint: self.model.get_openai_endpoint(),
                    request: self.chat_request(shell, os, prompt),
                },
            ),
            Err(e) => Err(e),
        }
    }
}

/// The command that a reply proposes: the content of the first choice's
/// message, where there is a first choice and it has a message.
pub open spec fn proposed_command(completion: Completion) -> Option<Seq<char>> {
    if completion.choices@.len() > 0 && completion.choices@[0].message is Some {
        Some(completion.choices@[0].message->Some_0.content@)
    } else {
        None
    }
}

/// Whether `outcome` is what resolving a prompt gives when the backend's
/// answer was `reply`.
pub open spec fn reply_resolved(
    reply: Result<Completion, Error>,
    outcome: Result<Option<String>, ResolveError>,
) -> bool {
    match reply {
        Ok(completion) => match proposed_command(completion) {
            Some(text) => outcome matches Ok(Some(command)) && command@ == text,
            None => outcome matches Ok(None),
        },
        Err(Error::ApiError(cause)) => outcome matches Err(ResolveError::Backend(BackendError::Api(m)))
            && m@ == cause@,
        Err(Error::RequestError(cause)) => outcome matches Err(
            ResolveError::Backend(BackendError::Request(m)),
        ) && m@ == cause@,
    }
}

/// Returns the command that `completion` proposes, unchanged, or `None` where
/// it proposes none.
pub fn first_command(completion: &Completion) -> (command: Option<String>)
    ensures
        command is Some <==> proposed_command(*completion) is Some,
        command matches Some(text) ==> Some(text@) == proposed_command(*completion),
{
    if completion.choices.len() == 0 {
        return None;
    }
    match &completion.choices[0].message {
        Some(message) => Some(message.content.clone()),
        None => None,
    }
}

/// Turns the backend's answer into the outcome of resolving: the proposed
/// command, `None` where the reply holds none, or the failure with its
/// cause.
pub fn command_from_reply(reply: Result<Completion, Error>) -> (outcome: Result<
    Option<String>,
    ResolveError,
>)
    ensures
        reply_resolved(reply, outcome),
{
    match reply {
        Ok(completion) => Ok(first_command(&completion)),
        Err(Error::ApiError(cause)) => Err(ResolveError::Backend(BackendError::Api(cause))),
        Err(Error::RequestError(cause)) => Err(ResolveError::Backend(BackendError::Request(cause))),
    }
}

} // verus!
