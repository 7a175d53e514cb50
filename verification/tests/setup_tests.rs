use llm_term::model::Model;
use llm_term::resolver::Config;
use llm_term::setup::{Question, Setup, LOCAL_MODEL_NAME};

fn answer_all(lines: &[&str]) -> Setup {
    let mut setup = Setup::new();
    for line in lines {
        setup = setup.answer(line).0;
    }
    setup
}

#[test]
fn setup_begins_with_the_choice_of_model() {
    let setup = Setup::new();
    assert_eq!(setup, Setup::ChooseModel);
    assert_eq!(setup.question(), Some(Question::SelectModel));
}

#[test]
fn choice_one_is_the_small_hosted_model() {
    let (next, taken) = Setup::new().answer("1\n");
    assert!(taken);
    assert_eq!(next, Setup::ChooseTokens { model: Model::OpenAiGpt4oMini });
    assert_eq!(next.question(), Some(Question::MaxTokens));
}

#[test]
fn choice_two_is_the_large_hosted_model() {
    let (next, taken) = Setup::new().answer(" 2 \n");
    assert!(taken);
    assert_eq!(next, Setup::ChooseTokens { model: Model::OpenAiGpt4o });
}

#[test]
fn choice_three_is_the_local_model() {
    let (next, taken) = Setup::new().answer("3\n");
    assert!(taken);
    assert_eq!(LOCAL_MODEL_NAME, "llama3.1");
    assert_eq!(next, Setup::ChooseTokens { model: Model::Ollama("llama3.1".to_string()) });
}

#[test]
fn other_choices_are_asked_again() {
    for line in ["\n", "0\n", "5\n", "one\n", "11\n"] {
        let (next, taken) = Setup::new().answer(line);
        assert!(!taken);
        assert_eq!(next, Setup::ChooseModel);
    }
}

#[test]
fn custom_backend_is_asked_for_in_four_steps() {
    let (step, taken) = Setup::new().answer("4\n");
    assert!(taken);
    assert_eq!(step.question(), Some(Question::ModelName));
    let (step, taken) = step.answer(" mistral \n");
    assert!(taken);
    assert_eq!(step, Setup::CustomEndpoint { model_name: "mistral".to_string() });
    assert_eq!(step.question(), Some(Question::Endpoint));
    let (step, taken) = step.answer("https://example.test/v1/\n");
    assert!(taken);
    assert_eq!(step.question(), Some(Question::SystemPrompt));
    let (step, taken) = step.answer("\n");
    assert!(taken);
    assert_eq!(
        step,
        Setup::CustomKey {
            model_name: "mistral".to_string(),
            endpoint: "https://example.test/v1/".to_string(),
            system_prompt: None,
        }
    );
    assert_eq!(step.question(), Some(Question::ApiKey));
    let (step, taken) = step.answer(" sk-custom \n");
    assert!(taken);
    assert_eq!(
        step,
        Setup::ChooseTokens {
            model: Model::Custom {
                model_name: "mistral".to_string(),
                endpoint: "https://example.test/v1/".to_string(),
                system_prompt: None,
                api_key: Some("sk-custom".to_string()),
            },
        }
    );
}

#[test]
fn custom_backend_keeps_prompt_and_may_lack_a_key() {
    let done = answer_all(&["4\n", "m\n", "http://h/\n", " Be brief. \n", "   \n", "100\n"]);
    assert_eq!(
        done.finish(),
        Some(Config {
            model: Model::Custom {
                model_name: "m".to_string(),
                endpoint: "http://h/".to_string(),
                system_prompt: Some("Be brief.".to_string()),
                api_key: None,
            },
            max_tokens: 100,
        })
    );
}

#[test]
fn tokens_are_asked_until_accepted() {
    let step = answer_all(&["1\n"]);
    let (step, taken) = step.answer("0\n");
    assert!(!taken);
    assert_eq!(step.question(), Some(Question::MaxTokens));
    let (step, taken) = step.answer("lots\n");
    assert!(!taken);
    let (step, taken) = step.answer("5000\n");
    assert!(!taken);
    assert_eq!(step, Setup::ChooseTokens { model: Model::OpenAiGpt4oMini });
    let (step, taken) = step.answer("256\n");
    assert!(taken);
    assert_eq!(step.question(), None);
    assert_eq!(step.finish(), Some(Config { model: Model::OpenAiGpt4oMini, max_tokens: 256 }));
}

#[test]
fn unfinished_setup_has_no_configuration() {
    assert_eq!(Setup::new().finish(), None);
    assert_eq!(answer_all(&["2\n"]).finish(), None);
}

#[test]
fn finished_setup_takes_no_more_answers() {
    let done = answer_all(&["2\n", "4096\n"]);
    let (same, taken) = done.clone().answer("1\n");
    assert!(!taken);
    assert_eq!(same, done);
}
