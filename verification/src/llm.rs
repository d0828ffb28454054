//! The LLM settings of the pet, the address of the model list of a local
//! LM Studio server, the chat history, and the Google API key kept in the
//! system's credential store.

use vstd::prelude::*;
use vstd::string::*;
use vstd::utf8::*;
use crate::labels::texts_of;
use crate::text::{trim_end_char, trim_end_matches_char};

verus! {

/// The service that answers the pet's chat.
#[derive(Debug, Clone, Copy, PartialEq, Eq, Structural)]
pub enum LlmProvider {
    LmStudio,
    Google,
}

/// The LLM settings. The Google API key is not part of them: it lives in the
/// system's credential store.
#[derive(Debug, Clone)]
pub struct LlmConfig {
    pub provider: LlmProvider,
    pub lm_studio_endpoint: String,
    pub lm_studio_model: String,
    pub google_model: String,
}

/// The plain values of the LLM settings.
pub struct LlmConfigView {
    pub provider: LlmProvider,
    pub lm_studio_endpoint: Seq<char>,
    pub lm_studio_model: Seq<char>,
    pub google_model: Seq<char>,
}

impl View for LlmConfig {
    type V = LlmConfigView;

    open spec fn view(&self) -> LlmConfigView {
        LlmConfigView {
            provider: self.provider,
            lm_studio_endpoint: self.lm_studio_endpoint@,
            lm_studio_model: self.lm_studio_model@,
            google_model: self.google_model@,
        }
    }
}

/// The Google models offered in the settings, in menu order.
pub open spec fn google_models_spec() -> Seq<Seq<char>> {
    seq![
        "gemini-3.1-flash-lite-preview"@,
        "gemini-3-flash-preview"@,
        "gemini-3.1-pro-preview"@,
        "gemini-2.5-flash"@,
        "gemini-2.5-flash-lite"@,
        "gemma-4-26b-a4b-it"@,
        "gemma-4-31b-it"@,
    ]
}

/// The Google models offered in the settings, in menu order.
pub fn google_models() -> (r: Vec<&'static str>)
    ensures
        texts_of(r@) == google_models_spec(),
{
    vec![
        "gemini-3.1-flash-lite-preview",
        "gemini-3-flash-preview",
        "gemini-3.1-pro-preview",
        "gemini-2.5-flash",
        "gemini-2.5-flash-lite",
        "gemma-4-26b-a4b-it",
        "gemma-4-31b-it",
    ]
}

impl Default for LlmConfig {
    /// LM Studio on its usual local address, no LM Studio model chosen yet, and
    /// the first of the offered Google models.
    fn default() -> (r: LlmConfig)
        ensures
            r.provider == LlmProvider::LmStudio,
            r.lm_studio_endpoint@ == "http://localhost:1234/v1"@,
            r.lm_studio_model@ == Seq::<char>::empty(),
            r.google_model@ == google_models_spec()[0],
    {
        LlmConfig {
            provider: LlmProvider::LmStudio,
            lm_studio_endpoint: String::from_str("http://localhost:1234/v1"),
            lm_studio_model: String::new(),
            google_model: String::from_str("gemini-3.1-flash-lite-preview"),
        }
    }
}

/// The address of the service `path` of an OpenAI-compatible server: the
/// endpoint without its trailing slashes, followed by `path`.
pub open spec fn api_url_spec(endpoint: Seq<char>, path: Seq<char>) -> Seq<char> {
    trim_end_char(endpoint, '/') + path
}

/// The address of the model list of an OpenAI-compatible server.
pub open spec fn models_url_spec(endpoint: Seq<char>) -> Seq<char> {
    api_url_spec(endpoint, "/models"@)
}

/// The address of the service `path` of the server at `endpoint`.
pub fn api_url(endpoint: &str, path: &str) -> (r: String)
    ensures
        r@ == api_url_spec(endpoint@, path@),
{
    let mut url = trim_end_matches_char(endpoint, '/');
    url.append(path);
    url
}

/// The address of the model list of the LM Studio server at `endpoint`.
pub fn models_url(endpoint: &str) -> (r: String)
    ensures
        r@ == models_url_spec(endpoint@),
{
    api_url(endpoint, "/models")
}

/// Slashes at the end of an endpoint do not change the address of its services.
pub proof fn lemma_api_url_ignores_trailing_slash(endpoint: Seq<char>, path: Seq<char>)
    ensures
        api_url_spec(endpoint.push('/'), path) == api_url_spec(endpoint, path),
{
    assert(endpoint.push('/').drop_last() == endpoint);
}

/// The label of the chosen LM Studio model in the settings: a placeholder when no
/// model is chosen, the name itself when it is at most 25 bytes long, and
/// otherwise its first 22 bytes followed by `...` (the 22nd byte must end a
/// character, or the cut would panic; a text's length in bytes fits in `usize`).
pub fn model_display_text(model: &str) -> (r: String)
    requires
        model.spec_bytes().len() <= usize::MAX,
        model.spec_bytes().len() > 25 ==> is_char_boundary(model.spec_bytes(), 22),
    ensures
        model@.len() == 0 ==> r@ == "선택 안됨"@,
        model@.len() > 0 && model.spec_bytes().len() <= 25 ==> r@ == model@,
        model@.len() > 0 && model.spec_bytes().len() > 25 ==> r@ == decode_utf8(
            model.spec_bytes().subrange(0, 22),
        ) + "..."@,
{
    if model.is_empty() {
        return String::from_str("선택 안됨");
    }
    if model.len() > 25 {
        let (head, _) = model.split_at(22);
        proof {
            vstd::utf8::encode_utf8_decode_utf8(head@);
            assert(head.spec_bytes() == encode_utf8(head@));
            assert(head.spec_bytes() == model.spec_bytes().subrange(0, 22));
            assert(decode_utf8(model.spec_bytes().subrange(0, 22)) == head@);
        }
        let mut text = String::from_str(head);
        text.append("...");
        text
    } else {
        String::from_str(model)
    }
}

/// One message of a chat with the model: who speaks (`system`, `user` or
/// `assistant`) and what is said.
#[derive(Debug, Clone)]
pub struct ChatMessage {
    pub role: String,
    pub content: String,
}

/// The role and content of each message of a chat.
pub open spec fn messages_view(messages: Seq<ChatMessage>) -> Seq<(Seq<char>, Seq<char>)> {
    messages.map_values(|m: ChatMessage| (m.role@, m.content@))
}


impl ChatMessage {
    /// A message with the given role and content.
    pub fn new(role: &str, content: &str) -> (r: ChatMessage)
        ensures
            r.role@ == role@,
            r.content@ == content@,
    {
        ChatMessage { role: String::from_str(role), content: String::from_str(content) }
    }
}

/// A copy of a chat.
pub fn copy_messages(messages: &Vec<ChatMessage>) -> (r: Vec<ChatMessage>)
    ensures
        messages_view(r@) == messages_view(messages@),
{
    let mut r: Vec<ChatMessage> = Vec::new();
    let mut i: usize = 0;
    while i < messages.len()
        invariant
            i <= messages.len(),
            messages_view(r@) == messages_view(messages@).subrange(0, i as int),
        decreases messages.len() - i,
    {
        let m = ChatMessage { role: messages[i].role.clone(), content: messages[i].content.clone() };
        let ghost before = r@;
        r.push(m);
        assert(messages_view(r@) =~= messages_view(before).push(
            (messages@[i as int].role@, messages@[i as int].content@),
        ));
        assert(messages_view(messages@).subrange(0, i + 1) =~= messages_view(messages@).subrange(
            0,
            i as int,
        ).push((messages@[i as int].role@, messages@[i as int].content@)));
        i = i + 1;
    }
    assert(messages_view(messages@).subrange(0, i as int) == messages_view(messages@));
    r
}

impl LlmConfig {
    /// A copy of the settings.
    pub fn copy(&self) -> (r: LlmConfig)
        ensures
            r@ == self@,
    {
        LlmConfig {
            provider: self.provider,
            lm_studio_endpoint: self.lm_studio_endpoint.clone(),
            lm_studio_model: self.lm_studio_model.clone(),
            google_model: self.google_model.clone(),
        }
    }
}

/// The error type of `keyring_core`.
#[verifier::external_type_specification]
#[verifier::external_body]
pub struct ExCredentialError(keyring_core::Error);

/// Why the Google API key could not be read or stored.
#[derive(Debug)]
pub enum ApiKeyError {
    /// The system's credential store could not be set up; the message says why.
    StoreUnavailable(String),
    /// The credential store refused the operation.
    Keyring(keyring_core::Error),
}

/// The service and user names under which the Google API key is kept.
pub fn google_api_key_names() -> (r: (&'static str, &'static str))
    ensures
        r.0@ == "rust-pets"@,
        r.1@ == "google-api-key"@,
{
    ("rust-pets", "google-api-key")
}

/// An operation on a credential: read its password, delete it, or write a password.
#[derive(Debug, Clone)]
pub enum KeyStoreOp {
    Read,
    Delete,
    Write(String),
}

/// A request to the system's credential store: make the entry for `service`
/// and `user`, and apply `op` to it. The caller performs it (it is I/O) and
/// hands the answer back.
#[derive(Debug, Clone)]
pub struct KeyStoreRequest {
    pub service: String,
    pub user: String,
    pub op: KeyStoreOp,
}

/// The request is for the entry of the Google API key.
pub open spec fn names_api_key(q: KeyStoreRequest) -> bool {
    q.service@ == "rust-pets"@ && q.user@ == "google-api-key"@
}

/// The request that applies `op` to the entry of the Google API key.
fn api_key_request(op: KeyStoreOp) -> (r: KeyStoreRequest)
    ensures
        names_api_key(r),
        r.op == op,
{
    let (service, user) = google_api_key_names();
    KeyStoreRequest { service: String::from_str(service), user: String::from_str(user), op }
}

/// Reading the Google API key: the request that reads the entry
/// (`rust-pets`, `google-api-key`); when the credential store could not be set
/// up there is nothing to read, and its message is the error. The store's answer
/// goes to `google_api_key_from_read`.
pub fn get_google_api_key(store: &Result<(), String>) -> (r: Result<KeyStoreRequest, ApiKeyError>)
    ensures
        match store {
            Err(m) => r matches Err(ApiKeyError::StoreUnavailable(e)) && e@ == m@,
            Ok(_) => r matches Ok(q) && names_api_key(q) && q.op is Read,
        },
{
    match store {
        Err(message) => Err(ApiKeyError::StoreUnavailable(message.clone())),
        Ok(()) => Ok(api_key_request(KeyStoreOp::Read)),
    }
}

/// The Google API key that the credential store's answer to the read gives. The
/// outer result is that of making the entry, the inner one that of reading its
/// password: the key is the password read, and there is none when either failed.
pub fn google_api_key_from_read(answer: Result<Result<String, keyring_core::Error>, keyring_core::Error>) -> (r: Option<String>)
    ensures
        match answer {
            Ok(Ok(key)) => r == Some(key),
            _ => r is None,
        },
{
    match answer {
        Ok(Ok(key)) => Some(key),
        _ => None,
    }
}

/// Storing `key` as the Google API key: the request on the entry (`rust-pets`,
/// `google-api-key`) that deletes the stored key when `key` is empty and writes
/// exactly `key` otherwise; when the credential store could not be set up there
/// is nothing to do, and its message is the error. The store's answer goes to
/// `google_api_key_set_result`.
pub fn set_google_api_key(store: &Result<(), String>, key: &str) -> (r: Result<KeyStoreRequest, ApiKeyError>)
    ensures
        match store {
            Err(m) => r matches Err(ApiKeyError::StoreUnavailable(e)) && e@ == m@,
            Ok(_) => r matches Ok(q) && names_api_key(q) && if key@.len() == 0 {
                q.op is Delete
            } else {
                q.op matches KeyStoreOp::Write(k) && k@ == key@
            },
        },
{
    match store {
        Err(message) => Err(ApiKeyError::StoreUnavailable(message.clone())),
        Ok(()) => {
            if key.is_empty() {
                Ok(api_key_request(KeyStoreOp::Delete))
            } else {
                Ok(api_key_request(KeyStoreOp::Write(String::from_str(key))))
            }
        },
    }
}

/// The result of storing the Google API key, given the operation and the store's
/// answer (the outer result is that of making the entry, the inner one that of
/// the operation). A failed entry fails with the store's error. Deleting then
/// always succeeds (a key that was not there is as good as deleted); writing
/// succeeds exactly when the store accepted the key, and otherwise gives its error.
pub fn google_api_key_set_result(op: &KeyStoreOp, answer: Result<Result<(), keyring_core::Error>, keyring_core::Error>) -> (r: Result<(), ApiKeyError>)
    ensures
        match answer {
            Err(e) => r == Err::<(), ApiKeyError>(ApiKeyError::Keyring(e)),
            Ok(done) => match op {
                KeyStoreOp::Write(_) => match done {
                    Ok(()) => r is Ok,
                    Err(e) => r == Err::<(), ApiKeyError>(ApiKeyError::Keyring(e)),
                },
                _ => r is Ok,
            },
        },
{
    match answer {
        Err(e) => Err(ApiKeyError::Keyring(e)),
        Ok(done) => match op {
            KeyStoreOp::Write(_) => match done {
                Ok(()) => Ok(()),
                Err(e) => Err(ApiKeyError::Keyring(e)),
            },
            _ => Ok(()),
        },
    }
}

} // verus!
