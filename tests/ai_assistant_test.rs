use gitbrowser::crypto::{CryptoService, CryptoServiceTrait};
use gitbrowser::providers::{AIAssistant, AIProviderName, ApiKeyRows};

fn setup() -> AIAssistant {
    AIAssistant::new(ApiKeyRows { open_router: None, open_ai: None, anthropic: None, deep_seek: None }).unwrap()
}

#[test]
fn test_set_and_get_api_key() {
    let mut ai = setup();
    ai.set_api_key(&AIProviderName::OpenAI, "sk-test123").unwrap();
    let key = ai.get_api_key(&AIProviderName::OpenAI).unwrap();
    assert_eq!(key, Some("sk-test123".to_string()));
}

#[test]
fn test_get_api_key_when_none() {
    let ai = setup();
    let key = ai.get_api_key(&AIProviderName::Anthropic).unwrap();
    assert_eq!(key, None);
}

#[test]
fn test_set_api_key_overwrites() {
    let mut ai = setup();
    ai.set_api_key(&AIProviderName::OpenAI, "sk-first").unwrap();
    ai.set_api_key(&AIProviderName::OpenAI, "sk-second").unwrap();
    let key = ai.get_api_key(&AIProviderName::OpenAI).unwrap();
    assert_eq!(key, Some("sk-second".to_string()));
}

#[test]
fn test_multiple_provider_keys_independent() {
    let mut ai = setup();
    ai.set_api_key(&AIProviderName::OpenAI, "sk-openai").unwrap();
    ai.set_api_key(&AIProviderName::Anthropic, "sk-anthropic").unwrap();
    ai.set_api_key(&AIProviderName::DeepSeek, "sk-deepseek").unwrap();
    assert_eq!(ai.get_api_key(&AIProviderName::OpenAI).unwrap(), Some("sk-openai".to_string()));
    assert_eq!(ai.get_api_key(&AIProviderName::Anthropic).unwrap(), Some("sk-anthropic".to_string()));
    assert_eq!(ai.get_api_key(&AIProviderName::DeepSeek).unwrap(), Some("sk-deepseek".to_string()));
}

#[test]
fn test_rekey_preserves_api_keys() {
    let mut ai = setup();
    ai.set_api_key(&AIProviderName::OpenAI, "sk-original").unwrap();
    ai.set_api_key(&AIProviderName::Anthropic, "sk-anthro").unwrap();
    let crypto = CryptoService::new();
    let salt = crypto.generate_salt().unwrap();
    let master_key = crypto.derive_key("master_pass", &salt).unwrap();
    ai.rekey_with_master(&master_key).unwrap();
    assert_eq!(ai.get_api_key(&AIProviderName::OpenAI).unwrap(), Some("sk-original".to_string()));
    assert_eq!(ai.get_api_key(&AIProviderName::Anthropic).unwrap(), Some("sk-anthro".to_string()));
}

#[test]
fn test_rekey_without_keys_succeeds() {
    let mut ai = setup();
    let crypto = CryptoService::new();
    let salt = crypto.generate_salt().unwrap();
    let master_key = crypto.derive_key("master", &salt).unwrap();
    ai.rekey_with_master(&master_key).unwrap();
}
