//! What one invocation is asked to do, decided from its arguments.

use vstd::prelude::*;
use crate::model::Model;
use crate::setup::text_of;

verus! {

/// The arguments of one invocation, as they were given.
#[derive(Clone, Debug, Default, PartialEq, Eq)]
pub struct Arguments {
    pub prompt: Option<String>,
    pub config: bool,
    pub show_config: bool,
    pub custom_model: Option<String>,
    pub custom_endpoint: Option<String>,
    pub custom_system_prompt: Option<String>,
    pub custom_api_key: Option<String>,
    pub disable_cache: bool,
}

/// What an invocation is to do.
#[derive(Clone, Debug, PartialEq, Eq)]
pub enum Task {
    /// Store this custom backend in the configuration.
    SaveCustomModel(Model),
    /// Say that a custom backend needs both a model name and an endpoint.
    RejectCustomModel,
    /// Run the setup and store the configuration.
    RunSetup,
    /// Show the configuration.
    ShowConfig,
    /// Resolve the prompt to a command; `use_cache` says whether the cache
    /// may be consulted.
    Ask { prompt: String, use_cache: bool },
    /// Say how the program is used.
    ShowUsage,
}

impl Arguments {
    /// Whether any part of a custom backend was given.
    pub open spec fn names_custom_model(&self) -> bool {
        self.custom_model is Some || self.custom_endpoint is Some
            || self.custom_system_prompt is Some || self.custom_api_key is Some
    }

    /// Whether `task` is what these arguments ask for. A custom backend
    /// comes first, then the setup, then showing the configuration, then the
    /// prompt; with none of them the usage is shown.
    pub open spec fn asks_for(&self, task: Task) -> bool {
        if self.names_custom_model() {
            match (self.custom_model, self.custom_endpoint) {
                (Some(name), Some(url)) => task matches Task::SaveCustomModel(
                    Model::Custom { model_name, endpoint, system_prompt, api_key },
                ) && model_name@ == name@ && endpoint@ == url@ && text_of(system_prompt)
                    == text_of(self.custom_system_prompt) && text_of(api_key) == text_of(
                    self.custom_api_key,
                ),
                _ => task is RejectCustomModel,
            }
        } else if self.config {
            task is RunSetup
        } else if self.show_config {
            task is ShowConfig
        } else {
            match self.prompt {
                Some(text) => task matches Task::Ask { prompt, use_cache } && prompt@ == text@
                    && use_cache == !self.disable_cache,
                None => task is ShowUsage,
            }
        }
    }

    /// Returns what these arguments ask for.
    pub fn task(self) -> (task: Task)
        ensures
            self.asks_for(task),
    {
        if self.custom_model.is_some() || self.custom_endpoint.is_some()
            || self.custom_system_prompt.is_some() || self.custom_api_key.is_some() {
            match (self.custom_model, self.custom_endpoint) {
                (Some(model_name), Some(endpoint)) => Task::SaveCustomModel(
                    Model::Custom {
                        model_name,
                        endpoint,
                        system_prompt: self.custom_system_prompt,
                        api_key: self.custom_api_key,
                    },
                ),
                _ => Task::RejectCustomModel,
            }
        } else if self.config {
            Task::RunSetup
        } else if self.show_config {
            Task::ShowConfig
        } else {
            match self.prompt {
                Some(prompt) => Task::Ask { prompt, use_cache: !self.disable_cache },
                None => Task::ShowUsage,
            }
        }
    }
}

} // verus!
