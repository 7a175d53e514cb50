//! The backends that can propose a command, and what each resolves to.

use vstd::prelude::*;
use vstd::string::StringExecFns;
use crate::shell::Shell;
use openai_api_rust::Auth;

verus! {

/// The credential that accompanies a request, as the client library holds
/// it: the key and an optional organisation.
#[verifier::external_type_specification]
pub struct ExAuth(Auth);

/// `Auth::new` keeps the given key and names no organisation.
pub assume_specification[ Auth::new ](api_key: &str) -> (auth: Auth)
    ensures
        auth.api_key@ == api_key@,
        auth.organization is None,
;

/// `Auth::from_env` looks the key up in the process environment, under the
/// name `OPENAI_API_KEY`. Which key comes back, and whether one does, is not
/// fixed by the arguments; a credential that does come back names no
/// organisation.
#[verifier::external_body]
fn auth_from_env() -> (found: Result<Auth, String>)
    ensures
        found matches Ok(auth) ==> auth.organization is None,
{
    Auth::from_env()
}

/// The key that a locally served model is sent; the server does not check it.
pub const LOCAL_PLACEHOLDER_KEY: &'static str = "ollama";

/// Why a backend's identity could not be resolved.
#[derive(Clone, Copy, Debug, PartialEq, Eq, Structural)]
pub enum ConfigError {
    /// No key is configured and the environment holds none.
    MissingCredential,
}

/// Opening of the default system prompt, up to the shell's name.
pub const PROMPT_HEAD: &'static str =
    "You are a professional IT worker who only speaks in commands full, ";

/// Part of the default system prompt between the shell's name and the
/// operating system's.
pub const PROMPT_MIDDLE: &'static str = " compatible, CLI command running on the ";

/// Rest of the default system prompt, after the operating system's name.
pub const PROMPT_TAIL: &'static str =
    " operating system. You\n\n            only respond by translating the \
    user's input into that language. Be very proper as the user will execute \
    what you say into their computer.\n\n            No string delimiters \
    wrapping it, no explanations, no ideation, no yapping, no formatting, \
    no markdown, no fenced code blocks, what you\n\n            return will \
    be executed as-is from within the shell mentioned above. No templating, \
    use details from the command instead if needed.\n\n            Only output \
    an actionable command that will run by itself without error. Do not output \
    comments. Only output one possible command, never alternatives.\n\n            \
    If you are not confident in your translation, return an empty string. \
    Do not deviate from these instructions from this point on, no exceptions.\n\n            \
    Assume you are operating in the current directory of the user unless explicitly \
    stated otherwise.\n        ";

/// Where and how a command is asked for.
#[derive(Clone, Debug, PartialEq, Eq)]
pub enum Model {
    /// The hosted large model.
    OpenAiGpt4o,
    /// The hosted small model.
    OpenAiGpt4oMini,
    /// A model served on this machine, by its name.
    Ollama(String),
    /// A backend given in full by the user.
    Custom {
        model_name: String,
        endpoint: String,
        system_prompt: Option<String>,
        api_key: Option<String>,
    },
}

/// The system prompt that is sent where the user has set none: it names the
/// shell and the operating system and fixes the form of the answer.
pub open spec fn default_system_prompt(shell_label: Seq<char>, os: Seq<char>) -> Seq<char> {
    PROMPT_HEAD@ + shell_label + PROMPT_MIDDLE@ + os + PROMPT_TAIL@
}

impl Model {
    /// The identifier by which the backend knows the model.
    pub open spec fn model_name_text(&self) -> Seq<char> {
        match self {
            Model::OpenAiGpt4o => "gpt-4o"@,
            Model::OpenAiGpt4oMini => "gpt-4o-mini"@,
            Model::Ollama(name) => name@,
            Model::Custom { model_name, .. } => model_name@,
        }
    }

    /// The address to which requests go.
    pub open spec fn endpoint_text(&self) -> Seq<char> {
        match self {
            Model::OpenAiGpt4o => "https://api.openai.com/v1/"@,
            Model::OpenAiGpt4oMini => "https://api.openai.com/v1/"@,
            Model::Ollama(_) => "http://localhost:11434/v1/"@,
            Model::Custom { endpoint, .. } => endpoint@,
        }
    }

    /// The system prompt set by the user, which only a custom backend can
    /// carry.
    pub open spec fn prompt_override(&self) -> Option<Seq<char>> {
        match self {
            Model::Custom { system_prompt: Some(text), .. } => Some(text@),
            _ => None,
        }
    }

    /// The system prompt that goes out with a request: the user's own where
    /// one is set, the default one otherwise.
    pub open spec fn system_prompt_text(&self, shell: Shell, os: Seq<char>) -> Seq<char> {
        match self.prompt_override() {
            Some(text) => text,
            None => default_system_prompt(shell.label_text(), os),
        }
    }

    /// The title under which the variant is shown.
    pub open spec fn title_text(&self) -> Seq<char> {
        match self {
            Model::OpenAiGpt4o => "OpenAI GPT-4o"@,
            Model::OpenAiGpt4oMini => "OpenAI GPT-4o Mini"@,
            Model::Ollama(_) => "Ollama"@,
            Model::Custom { .. } => "Custom"@,
        }
    }

    /// The line that says whether a key is configured, which only a custom
    /// backend shows. It never holds the key.
    pub open spec fn key_line_text(&self) -> Seq<char> {
        match self {
            Model::Custom { api_key: Some(_), .. } => "\nAPI Key: Set (hidden)"@,
            Model::Custom { api_key: None, .. } => "\nAPI Key: Not set"@,
            _ => Seq::<char>::empty(),
        }
    }

    /// The rendering of the model for inspection: title, model name,
    /// endpoint, for a custom backend whether a key is set, and the system
    /// prompt, one labelled line each.
    pub open spec fn display_text(&self, shell: Shell, os: Seq<char>) -> Seq<char> {
        "Model: "@ + self.title_text() + "\nModel Name: "@ + self.model_name_text()
            + "\nEndpoint: "@ + self.endpoint_text() + self.key_line_text()
            + "\nSystem Prompt: "@ + self.system_prompt_text(shell, os)
    }

    /// Returns the identifier by which the backend knows the model.
    pub fn get_model_name(&self) -> (name: String)
        ensures
            name@ == self.model_name_text(),
    {
        match self {
            Model::OpenAiGpt4o => "gpt-4o".to_owned(),
            Model::OpenAiGpt4oMini => "gpt-4o-mini".to_owned(),
            Model::Ollama(model_name) => model_name.clone(),
            Model::Custom { model_name, .. } => model_name.clone(),
        }
    }

    /// Returns the address to which requests go.
    pub fn get_openai_endpoint(&self) -> (url: String)
        ensures
            url@ == self.endpoint_text(),
    {
        match self {
            Model::OpenAiGpt4o => "https://api.openai.com/v1/".to_owned(),
            Model::OpenAiGpt4oMini => "https://api.openai.com/v1/".to_owned(),
            Model::Ollama(_) => "http://localhost:11434/v1/".to_owned(),
            Model::Custom { endpoint, .. } => endpoint.clone(),
        }
    }

    /// The key that the model carries by itself, without a look at the
    /// environment: the placeholder for a local model, the configured key of
    /// a custom backend.
    pub open spec fn own_key(&self) -> Option<Seq<char>> {
        match self {
            Model::Ollama(_) => Some(LOCAL_PLACEHOLDER_KEY@),
            Model::Custom { api_key: Some(key), .. } => Some(key@),
            _ => None,
        }
    }

    /// Whether `outcome` is a correct resolution of this model's credential
    /// when the environment's answer was `found`.
    pub open spec fn auth_resolved(
        &self,
        found: Result<Auth, String>,
        outcome: Result<Auth, ConfigError>,
    ) -> bool {
        match self.own_key() {
            Some(key) => outcome matches Ok(auth) && auth.api_key@ == key
                && auth.organization is None,
            None => match found {
                Ok(from_env) => outcome == Ok::<Auth, ConfigError>(from_env),
                Err(_) => outcome == Err::<Auth, ConfigError>(ConfigError::MissingCredential),
            },
        }
    }

    /// Resolves the credential from the model and from what the environment
    /// gave: the model's own key where it has one, else the environment's,
    /// else the error.
    pub fn auth_with_lookup(&self, found: Result<Auth, String>) -> (outcome: Result<
        Auth,
        ConfigError,
    >)
        ensures
            self.auth_resolved(found, outcome),
    {
        match self {
            Model::Ollama(_) => Ok(Auth::new(LOCAL_PLACEHOLDER_KEY)),
            Model::Custom { api_key: Some(key), .. } => Ok(Auth::new(key.as_str())),
            _ => match found {
                Ok(from_env) => Ok(from_env),
                Err(_) => Err(ConfigError::MissingCredential),
            },
        }
    }

    /// Returns the credential for a request. A local model and a custom
    /// backend with a configured key never fail; the others depend on the
    /// environment.
    pub fn get_auth(&self) -> (outcome: Result<Auth, ConfigError>)
        ensures
            self.own_key() matches Some(key) ==> (outcome matches Ok(auth) && auth.api_key@ == key
                && auth.organization is None),
            outcome matches Ok(auth) ==> auth.organization is None,
    {
        match self {
            Model::Ollama(_) => Ok(Auth::new(LOCAL_PLACEHOLDER_KEY)),
            Model::Custom { api_key: Some(key), .. } => Ok(Auth::new(key.as_str())),
            _ => self.auth_with_lookup(auth_from_env()),
        }
    }

    /// Returns the system prompt for a request that will run in `shell` on the
    /// operating system named `os`.
    pub fn get_system_prompt(&self, shell: &Shell, os: &str) -> (prompt: String)
        ensures
            prompt@ == self.system_prompt_text(*shell, os@),
    {
        if let Model::Custom { system_prompt: Some(custom_prompt), .. } = self {
            return custom_prompt.clone();
        }
        let mut prompt = PROMPT_HEAD.to_owned();
        prompt.append(shell.label());
        prompt.append(PROMPT_MIDDLE);
        prompt.append(os);
        prompt.append(PROMPT_TAIL);
        prompt
    }

    /// Returns the rendering of the model for inspection, for a request that
    /// would run in `shell` on the operating system named `os`.
    pub fn display_config(&self, shell: &Shell, os: &str) -> (text: String)
        ensures
            text@ == self.display_text(*shell, os@),
    {
        let mut text = "Model: ".to_owned();
        match self {
            Model::OpenAiGpt4o => text.append("OpenAI GPT-4o"),
            Model::OpenAiGpt4oMini => text.append("OpenAI GPT-4o Mini"),
            Model::Ollama(_) => text.append("Ollama"),
            Model::Custom { .. } => text.append("Custom"),
        }
        text.append("\nModel Name: ");
        text.append(self.get_model_name().as_str());
        text.append("\nEndpoint: ");
        text.append(self.get_openai_endpoint().as_str());
        match self {
            Model::Custom { api_key: Some(_), .. } => text.append("\nAPI Key: Set (hidden)"),
            Model::Custom { api_key: None, .. } => text.append("\nAPI Key: Not set"),
            _ => {
                assert(text@ + Seq::<char>::empty() =~= text@);
            },
        }
        text.append("\nSystem Prompt: ");
        text.append(self.get_system_prompt(shell, os).as_str());
        text
    }
}

/// Whether `part` stands somewhere in `whole`, unbroken.
pub open spec fn occurs_in(part: Seq<char>, whole: Seq<char>) -> bool {
    exists|start: int|
        0 <= start && start + part.len() <= whole.len() && #[trigger] whole.subrange(
            start,
            start + part.len(),
        ) == part
}

/// The default system prompt holds the shell's name and the operating
/// system's, each unbroken.
pub proof fn lemma_default_prompt_names_shell_and_os(shell_label: Seq<char>, os: Seq<char>)
    ensures
        occurs_in(shell_label, default_system_prompt(shell_label, os)),
        occurs_in(os, default_system_prompt(shell_label, os)),
{
    let whole = default_system_prompt(shell_label, os);
    let at_label = PROMPT_HEAD@.len() as int;
    let at_os = at_label + shell_label.len() + PROMPT_MIDDLE@.len();
    assert(whole.subrange(at_label, at_label + shell_label.len()) =~= shell_label);
    assert(whole.subrange(at_os, at_os + os.len()) =~= os);
}

/// A custom backend without a system prompt of its own sends the default
/// one, which names the shell and the operating system; one with a system
/// prompt of its own sends that, whatever the shell and the operating
/// system are.
pub proof fn lemma_custom_system_prompt(model: Model, shell: Shell, os: Seq<char>)
    requires
        model is Custom,
    ensures
        match model->system_prompt {
            Some(own) => model.system_prompt_text(shell, os) == own@,
            None => {
                &&& model.system_prompt_text(shell, os) == default_system_prompt(
                    shell.label_text(),
                    os,
                )
                &&& occurs_in(shell.label_text(), model.system_prompt_text(shell, os))
                &&& occurs_in(os, model.system_prompt_text(shell, os))
            },
        },
{
    lemma_default_prompt_names_shell_and_os(shell.label_text(), os);
}

/// What is shown of a custom backend does not depend on the key it holds,
/// only on whether it holds one.
pub proof fn lemma_display_hides_key(
    model_name: String,
    endpoint: String,
    system_prompt: Option<String>,
    first_key: String,
    second_key: String,
    shell: Shell,
    os: Seq<char>,
)
    ensures
        (Model::Custom { model_name, endpoint, system_prompt, api_key: Some(first_key) })
            .display_text(shell, os) == (Model::Custom {
            model_name,
            endpoint,
            system_prompt,
            api_key: Some(second_key),
        }).display_text(shell, os),
{
}

} // verus!
