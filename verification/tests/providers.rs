use ai_orchestrator::kernel::config::{join_path, Config, StoredConfig};
use ai_orchestrator::providers::{create_provider, gemini_combined_prompt, ChatMessage, ProviderError, ProviderKind};

fn config(provider: &str) -> Config {
    Config::from_stored(
        StoredConfig {
            provider: provider.to_string(),
            model: "m-1".to_string(),
            step_id: "001".to_string(),
            dev_cli: None,
            audit_cli: None,
        },
        "/ws".to_string(),
    )
}

#[test]
fn create_provider_selects_by_name() {
    assert_eq!(create_provider(&config("openai")).unwrap().kind, ProviderKind::OpenAi);
    assert_eq!(create_provider(&config("anthropic")).unwrap().kind, ProviderKind::Anthropic);
    let g = create_provider(&config("gemini")).unwrap();
    assert_eq!(g.kind, ProviderKind::Gemini);
    assert_eq!(g.model, "m-1");
    assert_eq!(create_provider(&config("mistral")).unwrap_err(), "unsupported provider: mistral");
}

#[test]
fn provider_names_and_keys() {
    assert_eq!(ProviderKind::Gemini.name(), "gemini");
    assert_eq!(ProviderKind::OpenAi.api_key_var(), "OPENAI_API_KEY");
    assert_eq!(ProviderKind::Anthropic.api_key_var(), "ANTHROPIC_API_KEY");
}

#[test]
fn provider_error_messages() {
    assert_eq!(ProviderError::MissingApiKey("GEMINI_API_KEY").message(), "missing environment variable GEMINI_API_KEY");
    assert_eq!(
        ProviderError::InvalidResponse("{}".to_string()).message(),
        "provider returned an invalid response: {}"
    );
}

#[test]
fn gemini_prompt_joins_messages() {
    let ms = vec![
        ChatMessage { role: "user".to_string(), content: "hi".to_string() },
        ChatMessage { role: "assistant".to_string(), content: "yo".to_string() },
    ];
    assert_eq!(gemini_combined_prompt(&ms), "[user]\nhi\n\n[assistant]\nyo");
    assert_eq!(gemini_combined_prompt(&vec![]), "");
}

#[test]
fn config_paths() {
    let c = config("openai");
    assert_eq!(c.orchestrator_dir, "/ws/.ai-orchestrator");
    assert_eq!(Config::config_path("/ws"), "/ws/.ai-orchestrator/config.json");
    assert_eq!(Config::config_path("/ws/"), "/ws/.ai-orchestrator/config.json");
    assert_eq!(join_path("", "a"), "a");
    let d = StoredConfig::default();
    assert_eq!(d.provider, "openai");
    assert_eq!(d.model, "gpt-4o");
    assert_eq!(d.step_id, "001");
}
