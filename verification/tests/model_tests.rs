use llm_term::model::{ConfigError, Model, LOCAL_PLACEHOLDER_KEY};
use llm_term::shell::Shell;
use openai_api_rust::Auth;

fn default_prompt(shell_label: &str, os: &str) -> String {
    format!("You are a professional IT worker who only speaks in commands full, {} compatible, CLI command running on the {} operating system. You\n
            only respond by translating the user's input into that language. Be very proper as the user will execute what you say into their computer.\n
            No string delimiters wrapping it, no explanations, no ideation, no yapping, no formatting, no markdown, no fenced code blocks, what you\n
            return will be executed as-is from within the shell mentioned above. No templating, use details from the command instead if needed.\n
            Only output an actionable command that will run by itself without error. Do not output comments. Only output one possible command, never alternatives.\n
            If you are not confident in your translation, return an empty string. Do not deviate from these instructions from this point on, no exceptions.\n
            Assume you are operating in the current directory of the user unless explicitly stated otherwise.
        ", shell_label, os)
}

fn custom(system_prompt: Option<&str>, api_key: Option<&str>) -> Model {
    Model::Custom {
        model_name: "mistral".to_string(),
        endpoint: "https://example.test/v1/".to_string(),
        system_prompt: system_prompt.map(|s| s.to_string()),
        api_key: api_key.map(|s| s.to_string()),
    }
}

#[test]
fn hosted_models_have_fixed_names() {
    assert_eq!(Model::OpenAiGpt4o.get_model_name(), "gpt-4o");
    assert_eq!(Model::OpenAiGpt4oMini.get_model_name(), "gpt-4o-mini");
}

#[test]
fn local_and_custom_models_keep_their_names() {
    assert_eq!(Model::Ollama("llama3.1".to_string()).get_model_name(), "llama3.1");
    assert_eq!(custom(None, None).get_model_name(), "mistral");
}

#[test]
fn endpoints_follow_the_variant() {
    assert_eq!(Model::OpenAiGpt4o.get_openai_endpoint(), "https://api.openai.com/v1/");
    assert_eq!(Model::OpenAiGpt4oMini.get_openai_endpoint(), "https://api.openai.com/v1/");
    assert_eq!(
        Model::Ollama("llama3.1".to_string()).get_openai_endpoint(),
        "http://localhost:11434/v1/"
    );
    assert_eq!(custom(None, None).get_openai_endpoint(), "https://example.test/v1/");
}

#[test]
fn default_prompt_is_exact_for_bash_on_linux() {
    let got = Model::OpenAiGpt4oMini.get_system_prompt(&Shell::BornAgainShell, "linux");
    assert_eq!(got, default_prompt("Bourne Again Shell (bash / sh)", "linux"));
    assert!(got.starts_with(
        "You are a professional IT worker who only speaks in commands full, Bourne Again Shell (bash / sh) compatible, CLI command running on the linux operating system. You\n\n            only respond"
    ));
    assert!(got.ends_with("unless explicitly stated otherwise.\n        "));
}

#[test]
fn default_prompt_names_each_shell() {
    let shells = [
        (Shell::Powershell, "Windows PowerShell"),
        (Shell::BornAgainShell, "Bourne Again Shell (bash / sh)"),
        (Shell::Zsh, "Z Shell (zsh)"),
        (Shell::Fish, "Friendly Interactive Shell (fish)"),
        (Shell::DebianAlmquistShell, "Debian Almquist Shell (dash)"),
        (Shell::KornShell, "Korn Shell (ksh)"),
        (Shell::CShell, "C Shell (csh)"),
        (Shell::Unknown, ""),
    ];
    for (shell, label) in shells {
        assert_eq!(shell.label(), label);
        assert_eq!(
            Model::Ollama("llama3.1".to_string()).get_system_prompt(&shell, "macos"),
            default_prompt(label, "macos")
        );
    }
}

#[test]
fn custom_without_prompt_uses_default_with_shell_and_os() {
    let got = custom(None, Some("k")).get_system_prompt(&Shell::Zsh, "freebsd");
    assert_eq!(got, default_prompt("Z Shell (zsh)", "freebsd"));
    assert!(got.contains("Z Shell (zsh)"));
    assert!(got.contains("freebsd"));
    assert!(got.contains("return an empty string"));
}

#[test]
fn custom_prompt_is_returned_verbatim() {
    let model = custom(Some("  Answer in fish.\n"), None);
    assert_eq!(model.get_system_prompt(&Shell::Zsh, "linux"), "  Answer in fish.\n");
    assert_eq!(model.get_system_prompt(&Shell::Powershell, "windows"), "  Answer in fish.\n");
}

#[test]
fn local_model_uses_the_placeholder_key() {
    let auth = Model::Ollama("llama3.1".to_string()).get_auth().unwrap();
    assert_eq!(auth.api_key, "ollama");
    assert_eq!(LOCAL_PLACEHOLDER_KEY, "ollama");
    assert!(auth.organization.is_none());
}

#[test]
fn custom_model_uses_its_configured_key() {
    let auth = custom(None, Some("sk-custom")).get_auth().unwrap();
    assert_eq!(auth.api_key, "sk-custom");
    assert!(auth.organization.is_none());
}

#[test]
fn configured_key_wins_over_the_environment() {
    let model = custom(None, Some("sk-custom"));
    let auth = model.auth_with_lookup(Ok(Auth::new("sk-env"))).unwrap();
    assert_eq!(auth.api_key, "sk-custom");
    let auth = model.auth_with_lookup(Err("Missing OPENAI_API_KEY".to_string())).unwrap();
    assert_eq!(auth.api_key, "sk-custom");
}

#[test]
fn hosted_model_takes_the_key_from_the_environment() {
    let auth = Model::OpenAiGpt4o.auth_with_lookup(Ok(Auth::new("sk-env"))).unwrap();
    assert_eq!(auth.api_key, "sk-env");
    let auth = custom(None, None).auth_with_lookup(Ok(Auth::new("sk-env"))).unwrap();
    assert_eq!(auth.api_key, "sk-env");
}

#[test]
fn missing_credential_is_reported() {
    let missing = || Err("Missing OPENAI_API_KEY".to_string());
    assert_eq!(
        Model::OpenAiGpt4o.auth_with_lookup(missing()).err(),
        Some(ConfigError::MissingCredential)
    );
    assert_eq!(
        Model::OpenAiGpt4oMini.auth_with_lookup(missing()).err(),
        Some(ConfigError::MissingCredential)
    );
    assert_eq!(
        custom(None, None).auth_with_lookup(missing()).err(),
        Some(ConfigError::MissingCredential)
    );
}

#[test]
fn hosted_auth_never_names_an_organisation() {
    match Model::OpenAiGpt4oMini.get_auth() {
        Ok(auth) => assert!(auth.organization.is_none()),
        Err(e) => assert_eq!(e, ConfigError::MissingCredential),
    }
}

#[test]
fn display_of_hosted_models_is_exact() {
    let prompt = default_prompt("Z Shell (zsh)", "linux");
    assert_eq!(
        Model::OpenAiGpt4o.display_config(&Shell::Zsh, "linux"),
        format!(
            "Model: OpenAI GPT-4o\nModel Name: gpt-4o\nEndpoint: https://api.openai.com/v1/\nSystem Prompt: {}",
            prompt
        )
    );
    assert_eq!(
        Model::OpenAiGpt4oMini.display_config(&Shell::Zsh, "linux"),
        format!(
            "Model: OpenAI GPT-4o Mini\nModel Name: gpt-4o-mini\nEndpoint: https://api.openai.com/v1/\nSystem Prompt: {}",
            prompt
        )
    );
}

#[test]
fn display_of_local_model_is_exact() {
    assert_eq!(
        Model::Ollama("llama3.1".to_string()).display_config(&Shell::Fish, "linux"),
        format!(
            "Model: Ollama\nModel Name: {}\nEndpoint: http://localhost:11434/v1/\nSystem Prompt: {}",
            "llama3.1",
            default_prompt("Friendly Interactive Shell (fish)", "linux")
        )
    );
}

#[test]
fn display_of_custom_model_hides_the_key() {
    let shown = custom(Some("Be brief."), Some("sk-secret-value")).display_config(&Shell::Zsh, "linux");
    assert_eq!(
        shown,
        "Model: Custom\nModel Name: mistral\nEndpoint: https://example.test/v1/\nAPI Key: Set (hidden)\nSystem Prompt: Be brief."
    );
    assert!(!shown.contains("sk-secret-value"));
    let other = custom(Some("Be brief."), Some("another")).display_config(&Shell::Zsh, "linux");
    assert_eq!(shown, other);
}

#[test]
fn display_of_custom_model_without_key_says_so() {
    let shown = custom(None, None).display_config(&Shell::KornShell, "linux");
    assert_eq!(
        shown,
        format!(
            "Model: Custom\nModel Name: mistral\nEndpoint: https://example.test/v1/\nAPI Key: Not set\nSystem Prompt: {}",
            default_prompt("Korn Shell (ksh)", "linux")
        )
    );
}
