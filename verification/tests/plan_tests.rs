use llm_term::model::Model;
use llm_term::plan::{Arguments, Task};

#[test]
fn no_arguments_show_the_usage() {
    assert_eq!(Arguments::default().task(), Task::ShowUsage);
}

#[test]
fn prompt_is_asked_with_the_cache_by_default() {
    let arguments = Arguments { prompt: Some("list files".to_string()), ..Arguments::default() };
    assert_eq!(arguments.task(), Task::Ask { prompt: "list files".to_string(), use_cache: true });
}

#[test]
fn disable_cache_switches_the_cache_off() {
    let arguments = Arguments {
        prompt: Some("list files".to_string()),
        disable_cache: true,
        ..Arguments::default()
    };
    assert_eq!(arguments.task(), Task::Ask { prompt: "list files".to_string(), use_cache: false });
}

#[test]
fn setup_comes_before_show_config_and_prompt() {
    let arguments = Arguments {
        prompt: Some("list files".to_string()),
        config: true,
        show_config: true,
        ..Arguments::default()
    };
    assert_eq!(arguments.task(), Task::RunSetup);
}

#[test]
fn show_config_comes_before_the_prompt() {
    let arguments = Arguments {
        prompt: Some("list files".to_string()),
        show_config: true,
        ..Arguments::default()
    };
    assert_eq!(arguments.task(), Task::ShowConfig);
}

#[test]
fn custom_model_needs_name_and_endpoint() {
    let only_name = Arguments { custom_model: Some("m".to_string()), ..Arguments::default() };
    assert_eq!(only_name.task(), Task::RejectCustomModel);
    let only_endpoint = Arguments { custom_endpoint: Some("http://h/".to_string()), ..Arguments::default() };
    assert_eq!(only_endpoint.task(), Task::RejectCustomModel);
    let only_key = Arguments {
        custom_api_key: Some("k".to_string()),
        config: true,
        prompt: Some("list files".to_string()),
        ..Arguments::default()
    };
    assert_eq!(only_key.task(), Task::RejectCustomModel);
    let only_prompt = Arguments { custom_system_prompt: Some("p".to_string()), ..Arguments::default() };
    assert_eq!(only_prompt.task(), Task::RejectCustomModel);
}

#[test]
fn custom_model_is_saved_with_what_was_given() {
    let arguments = Arguments {
        custom_model: Some("mistral".to_string()),
        custom_endpoint: Some("https://example.test/v1/".to_string()),
        custom_api_key: Some("sk-custom".to_string()),
        prompt: Some("list files".to_string()),
        ..Arguments::default()
    };
    assert_eq!(
        arguments.task(),
        Task::SaveCustomModel(Model::Custom {
            model_name: "mistral".to_string(),
            endpoint: "https://example.test/v1/".to_string(),
            system_prompt: None,
            api_key: Some("sk-custom".to_string()),
        })
    );
}
