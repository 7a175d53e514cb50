//! The questions by which a configuration is set up, and what each answer
//! leads to.
//!
//! The caller shows the question that belongs to the step, reads a line,
//! and hands the line to [`Setup::answer`].

use vstd::prelude::*;
use crate::model::Model;
use crate::resolver::Config;
use crate::text::{optional_answer, read_optional, read_tokens, token_answer, trimmed, trimmed_line};

verus! {

/// The name of the model that a local server is asked for.
pub const LOCAL_MODEL_NAME: &'static str = "llama3.1";

/// What the user is asked at a step.
#[derive(Clone, Copy, Debug, PartialEq, Eq, Structural)]
pub enum Question {
    /// Which backend, by its number from 1 to 4.
    SelectModel,
    /// The custom model's name.
    ModelName,
    /// The custom backend's address.
    Endpoint,
    /// The custom system prompt, which may be left blank.
    SystemPrompt,
    /// The custom backend's key, which may be left blank.
    ApiKey,
    /// The number of tokens allowed to an answer.
    MaxTokens,
}

/// A step of the setup, with what was answered so far.
#[derive(Clone, Debug, PartialEq, Eq)]
pub enum Setup {
    ChooseModel,
    CustomName,
    CustomEndpoint { model_name: String },
    CustomPrompt { model_name: String, endpoint: String },
    CustomKey { model_name: String, endpoint: String, system_prompt: Option<String> },
    ChooseTokens { model: Model },
    Done(Config),
}

/// The text of an optional string, if there is one.
pub open spec fn text_of(value: Option<String>) -> Option<Seq<char>> {
    match value {
        Some(text) => Some(text@),
        None => None,
    }
}

impl Setup {
    /// Whether `next` is the step that the answer `line` leads to from this
    /// one. A choice of backend that is not a number from 1 to 4, and a
    /// number of tokens that is not accepted, lead nowhere: the step stays.
    pub open spec fn leads_to(self, line: Seq<char>, next: Setup) -> bool {
        match self {
            Setup::ChooseModel => if trimmed(line) == "1"@ {
                next matches Setup::ChooseTokens { model } && model is OpenAiGpt4oMini
            } else if trimmed(line) == "2"@ {
                next matches Setup::ChooseTokens { model } && model is OpenAiGpt4o
            } else if trimmed(line) == "3"@ {
                next matches Setup::ChooseTokens { model: Model::Ollama(name) } && name@
                    == LOCAL_MODEL_NAME@
            } else if trimmed(line) == "4"@ {
                next is CustomName
            } else {
                next is ChooseModel
            },
            Setup::CustomName => next matches Setup::CustomEndpoint { model_name } && model_name@
                == trimmed(line),
            Setup::CustomEndpoint { model_name: name } => next matches Setup::CustomPrompt {
                model_name,
                endpoint,
            } && model_name@ == name@ && endpoint@ == trimmed(line),
            Setup::CustomPrompt { model_name: name, endpoint: url } => next matches Setup::CustomKey {
                model_name,
                endpoint,
                system_prompt,
            } && model_name@ == name@ && endpoint@ == url@ && text_of(system_prompt)
                == optional_answer(line),
            Setup::CustomKey {
                model_name: name,
                endpoint: url,
                system_prompt: prompt,
            } => next matches Setup::ChooseTokens {
                model: Model::Custom { model_name, endpoint, system_prompt, api_key },
            } && model_name@ == name@ && endpoint@ == url@ && text_of(system_prompt) == text_of(
                prompt,
            ) && text_of(api_key) == optional_answer(line),
            Setup::ChooseTokens { model } => match token_answer(line) {
                Some(tokens) => next matches Setup::Done(config) && config.model == model
                    && config.max_tokens == tokens,
                None => next == self,
            },
            Setup::Done(_) => next == self,
        }
    }

    /// Whether the answer `line` is taken at this step. A choice of backend
    /// must be a number from 1 to 4 and a number of tokens must be accepted;
    /// every other answer is taken as it is.
    pub open spec fn takes(self, line: Seq<char>) -> bool {
        match self {
            Setup::ChooseModel => trimmed(line) == "1"@ || trimmed(line) == "2"@ || trimmed(line)
                == "3"@ || trimmed(line) == "4"@,
            Setup::ChooseTokens { .. } => token_answer(line) is Some,
            Setup::Done(_) => false,
            _ => true,
        }
    }

    /// Returns the first step.
    pub fn new() -> (setup: Setup)
        ensures
            setup is ChooseModel,
    {
        Setup::ChooseModel
    }

    /// Returns what is asked at this step, or `None` once the setup is done.
    pub fn question(&self) -> (asked: Option<Question>)
        ensures
            asked == match self {
                Setup::ChooseModel => Some(Question::SelectModel),
                Setup::CustomName => Some(Question::ModelName),
                Setup::CustomEndpoint { .. } => Some(Question::Endpoint),
                Setup::CustomPrompt { .. } => Some(Question::SystemPrompt),
                Setup::CustomKey { .. } => Some(Question::ApiKey),
                Setup::ChooseTokens { .. } => Some(Question::MaxTokens),
                Setup::Done(_) => None,
            },
    {
        match self {
            Setup::ChooseModel => Some(Question::SelectModel),
            Setup::CustomName => Some(Question::ModelName),
            Setup::CustomEndpoint { .. } => Some(Question::Endpoint),
            Setup::CustomPrompt { .. } => Some(Question::SystemPrompt),
            Setup::CustomKey { .. } => Some(Question::ApiKey),
            Setup::ChooseTokens { .. } => Some(Question::MaxTokens),
            Setup::Done(_) => None,
        }
    }

    /// Takes the answer `line` to this step's question. Returns the step
    /// that follows, and whether the answer was taken: where it was not,
    /// the step is the same and the question is to be asked again.
    pub fn answer(self, line: &str) -> (outcome: (Setup, bool))
        ensures
            self.leads_to(line@, outcome.0),
            outcome.1 == self.takes(line@),
    {
        match self {
            Setup::ChooseModel => {
                let choice = trimmed_line(line);
                if choice == "1".to_owned() {
                    (Setup::ChooseTokens { model: Model::OpenAiGpt4oMini }, true)
                } else if choice == "2".to_owned() {
                    (Setup::ChooseTokens { model: Model::OpenAiGpt4o }, true)
                } else if choice == "3".to_owned() {
                    (Setup::ChooseTokens { model: Model::Ollama(LOCAL_MODEL_NAME.to_owned()) }, true)
                } else if choice == "4".to_owned() {
                    (Setup::CustomName, true)
                } else {
                    (Setup::ChooseModel, false)
                }
            },
            Setup::CustomName => (Setup::CustomEndpoint { model_name: trimmed_line(line) }, true),
            Setup::CustomEndpoint { model_name } => (
                Setup::CustomPrompt { model_name, endpoint: trimmed_line(line) },
                true,
            ),
            Setup::CustomPrompt { model_name, endpoint } => (
                Setup::CustomKey { model_name, endpoint, system_prompt: read_optional(line) },
                true,
            ),
            Setup::CustomKey { model_name, endpoint, system_prompt } => (
                Setup::ChooseTokens {
                    model: Model::Custom {
                        model_name,
                        endpoint,
                        system_prompt,
                        api_key: read_optional(line),
                    },
                },
                true,
            ),
            Setup::ChooseTokens { model } => match read_tokens(line) {
                Some(max_tokens) => (Setup::Done(Config { model, max_tokens }), true),
                None => (Setup::ChooseTokens { model }, false),
            },
            Setup::Done(config) => (Setup::Done(config), false),
        }
    }

    /// Returns the configuration, once the setup is done.
    pub fn finish(self) -> (made: Option<Config>)
        ensures
            made == match self {
                Setup::Done(config) => Some(config),
                _ => None,
            },
    {
        match self {
            Setup::Done(config) => Some(config),
            _ => None,
        }
    }
}

/// A configuration that the setup arrives at is valid: the number of tokens
/// it allows lies within the limits.
pub proof fn lemma_setup_makes_valid_config(step: Setup, line: Seq<char>, next: Setup)
    requires
        step.leads_to(line, next),
        !(step is Done),
    ensures
        next matches Setup::Done(config) ==> config.valid(),
{
}

} // verus!
