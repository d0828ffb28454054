use rust_pets::llm::{
    copy_messages, get_google_api_key, google_api_key_from_read, google_api_key_set_result,
    google_models, model_display_text, models_url, set_google_api_key, ApiKeyError, ChatMessage,
    KeyStoreOp, KeyStoreRequest, LlmConfig, LlmProvider,
};

#[test]
fn default_settings_use_lm_studio_and_the_first_google_model() {
    let c = LlmConfig::default();
    assert_eq!(c.provider, LlmProvider::LmStudio);
    assert_eq!(c.lm_studio_endpoint, "http://localhost:1234/v1");
    assert_eq!(c.lm_studio_model, "");
    assert_eq!(c.google_model, google_models()[0]);
    assert_eq!(c.google_model, "gemini-3.1-flash-lite-preview");
}

#[test]
fn google_models_in_menu_order() {
    assert_eq!(
        google_models(),
        vec![
            "gemini-3.1-flash-lite-preview",
            "gemini-3-flash-preview",
            "gemini-3.1-pro-preview",
            "gemini-2.5-flash",
            "gemini-2.5-flash-lite",
            "gemma-4-26b-a4b-it",
            "gemma-4-31b-it",
        ]
    );
}

#[test]
fn models_url_ignores_trailing_slashes() {
    assert_eq!(models_url("http://localhost:1234/v1"), "http://localhost:1234/v1/models");
    assert_eq!(models_url("http://localhost:1234/v1/"), "http://localhost:1234/v1/models");
    assert_eq!(models_url("http://localhost:1234/v1///"), "http://localhost:1234/v1/models");
    assert_eq!(models_url(""), "/models");
}

#[test]
fn model_display_text_shortens_long_names() {
    assert_eq!(model_display_text(""), "선택 안됨");
    assert_eq!(model_display_text("qwen2.5-7b"), "qwen2.5-7b");
    let exactly_25 = "abcdefghijklmnopqrstuvwxy";
    assert_eq!(model_display_text(exactly_25), exactly_25);
    assert_eq!(
        model_display_text("abcdefghijklmnopqrstuvwxyz"),
        "abcdefghijklmnopqrstuv..."
    );
}

#[test]
fn copies_keep_every_message_and_setting() {
    let chat = vec![ChatMessage::new("system", "be kind"), ChatMessage::new("user", "hi")];
    let copy = copy_messages(&chat);
    assert_eq!(copy.len(), 2);
    assert_eq!(copy[0].role, "system");
    assert_eq!(copy[1].content, "hi");
    let mut c = LlmConfig::default();
    c.provider = LlmProvider::Google;
    c.lm_studio_model = "m".to_string();
    let d = c.copy();
    assert_eq!(d.provider, LlmProvider::Google);
    assert_eq!(d.lm_studio_model, "m");
    assert_eq!(d.lm_studio_endpoint, c.lm_studio_endpoint);
}

fn read_password(q: &KeyStoreRequest) -> Result<Result<String, keyring_core::Error>, keyring_core::Error> {
    let entry = keyring_core::Entry::new(&q.service, &q.user)?;
    Ok(entry.get_password())
}

fn apply(q: &KeyStoreRequest) -> Result<Result<(), keyring_core::Error>, keyring_core::Error> {
    let entry = keyring_core::Entry::new(&q.service, &q.user)?;
    Ok(match &q.op {
        KeyStoreOp::Read => entry.get_password().map(|_| ()),
        KeyStoreOp::Delete => entry.delete_credential(),
        KeyStoreOp::Write(k) => entry.set_password(k),
    })
}

fn get_key(store: &Result<(), String>) -> Option<String> {
    let q = get_google_api_key(store).ok()?;
    google_api_key_from_read(read_password(&q))
}

fn set_key(store: &Result<(), String>, key: &str) -> Result<(), ApiKeyError> {
    let q = set_google_api_key(store, key)?;
    google_api_key_set_result(&q.op, apply(&q))
}

#[test]
fn api_key_requests_name_the_entry_and_the_operation() {
    assert_eq!(rust_pets::llm::google_api_key_names(), ("rust-pets", "google-api-key"));
    let ready: Result<(), String> = Ok(());
    let read = get_google_api_key(&ready).unwrap();
    assert_eq!((read.service.as_str(), read.user.as_str()), ("rust-pets", "google-api-key"));
    assert!(matches!(read.op, KeyStoreOp::Read));
    let write = set_google_api_key(&ready, "secret").unwrap();
    assert_eq!((write.service.as_str(), write.user.as_str()), ("rust-pets", "google-api-key"));
    assert!(matches!(&write.op, KeyStoreOp::Write(k) if k == "secret"));
    let clear = set_google_api_key(&ready, "").unwrap();
    assert!(matches!(clear.op, KeyStoreOp::Delete));
    let down: Result<(), String> = Err("down".to_string());
    assert!(matches!(get_google_api_key(&down), Err(ApiKeyError::StoreUnavailable(m)) if m == "down"));
    assert!(matches!(set_google_api_key(&down, "k"), Err(ApiKeyError::StoreUnavailable(m)) if m == "down"));
}

#[test]
fn store_answers_give_the_results() {
    type Error = keyring_core::Error;
    assert_eq!(google_api_key_from_read(Ok(Ok("abc".to_string()))), Some("abc".to_string()));
    assert_eq!(google_api_key_from_read(Ok(Err(Error::NoEntry))), None);
    assert_eq!(google_api_key_from_read(Err(Error::NoDefaultStore)), None);
    assert!(google_api_key_set_result(&KeyStoreOp::Delete, Ok(Err(Error::NoEntry))).is_ok());
    assert!(google_api_key_set_result(&KeyStoreOp::Write("k".to_string()), Ok(Ok(()))).is_ok());
    assert!(matches!(
        google_api_key_set_result(&KeyStoreOp::Write("k".to_string()), Ok(Err(Error::NoEntry))),
        Err(ApiKeyError::Keyring(Error::NoEntry))
    ));
    assert!(matches!(
        google_api_key_set_result(&KeyStoreOp::Delete, Err(Error::NoDefaultStore)),
        Err(ApiKeyError::Keyring(Error::NoDefaultStore))
    ));
}

#[test]
fn api_key_round_trip_through_the_credential_store() {
    let unavailable: Result<(), String> = Err("no store here".to_string());
    assert!(get_key(&unavailable).is_none());
    match set_key(&unavailable, "k") {
        Err(ApiKeyError::StoreUnavailable(m)) => assert_eq!(m, "no store here"),
        other => panic!("unexpected {:?}", other),
    }

    keyring_core::set_default_store(keyring_core::mock::Store::new().unwrap());
    let ready: Result<(), String> = Ok(());
    assert!(get_key(&ready).is_none());
    assert!(set_key(&ready, "AIza-test-key").is_ok());
    assert_eq!(get_key(&ready), Some("AIza-test-key".to_string()));
    assert!(set_key(&ready, "").is_ok());
    assert!(get_key(&ready).is_none());
    assert!(set_key(&ready, "").is_ok(), "clearing twice still succeeds");
    keyring_core::unset_default_store();
}
