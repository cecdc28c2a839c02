//! Where requests go and what the answers of the service mean.

use crate::model::ModelProviderError;
use crate::protocol::usage::Usage;
use crate::text;
use vstd::prelude::*;

verus! {

/// The address of the service where none is configured.
pub const DEFAULT_DEEPSEEK_BASE_URL: &'static str = "https://api.deepseek.com/v1";

/// The place of chat completions under the address.
pub const DEEPSEEK_CHAT_ENDPOINT: &'static str = "/chat/completions";

/// The model where a request names none.
pub const DEFAULT_DEEPSEEK_MODEL: &'static str = "deepseek-v4-pro";

/// How long a request may take, in seconds.
pub const DEFAULT_TIMEOUT_SECS: u64 = 120;

/// The settings of the provider.
#[derive(Debug)]
pub struct DeepSeekProvider {
    api_key: String,
    base_url: String,
    default_model: String,
    last_usage: Option<Usage>,
}

/// The settings of the provider, over plain texts.
pub struct ProviderView {
    pub api_key: Seq<char>,
    pub base_url: Seq<char>,
    pub default_model: Seq<char>,
    /// The usage that was last recorded.
    pub last_usage: Option<Usage>,
}

impl View for DeepSeekProvider {
    type V = ProviderView;

    closed spec fn view(&self) -> ProviderView {
        ProviderView {
            api_key: self.api_key@,
            base_url: self.base_url@,
            default_model: self.default_model@,
            last_usage: self.last_usage,
        }
    }
}

impl DeepSeekProvider {
    pub fn new(api_key: String) -> (r: Self)
        ensures
            r@ == (ProviderView {
                api_key: api_key@,
                base_url: DEFAULT_DEEPSEEK_BASE_URL@,
                default_model: DEFAULT_DEEPSEEK_MODEL@,
                last_usage: None,
            }),
    {
        DeepSeekProvider {
            api_key,
            base_url: text::owned(DEFAULT_DEEPSEEK_BASE_URL),
            default_model: text::owned(DEFAULT_DEEPSEEK_MODEL),
            last_usage: None,
        }
    }

    pub fn with_base_url(self, url: String) -> (r: Self)
        ensures
            r@ == (ProviderView { base_url: url@, ..self@ }),
    {
        DeepSeekProvider { base_url: url, ..self }
    }

    pub fn with_default_model(self, model: String) -> (r: Self)
        ensures
            r@ == (ProviderView { default_model: model@, ..self@ }),
    {
        DeepSeekProvider { default_model: model, ..self }
    }

    pub fn provider_name(&self) -> (r: &'static str)
        ensures
            r@ == "deepseek"@,
    {
        "deepseek"
    }

    pub fn default_model(&self) -> (r: &str)
        ensures
            r@ == self@.default_model,
    {
        self.default_model.as_str()
    }

    /// The usage that was last recorded, for the cost.
    pub fn last_usage(&self) -> (r: Option<Usage>)
        ensures
            r == self@.last_usage,
    {
        self.last_usage
    }

    /// The address that requests go to.
    pub fn url(&self) -> (r: String)
        ensures
            r@ == self@.base_url + DEEPSEEK_CHAT_ENDPOINT@,
    {
        text::cat(self.base_url.as_str(), DEEPSEEK_CHAT_ENDPOINT)
    }

    /// The header that tells who asks.
    pub fn authorization(&self) -> (r: String)
        ensures
            r@ == "Bearer "@ + self@.api_key,
    {
        text::cat("Bearer ", self.api_key.as_str())
    }
}

/// The error of a request that got no answer.
pub fn transport_error(is_timeout: bool, message: String) -> (r: ModelProviderError)
    ensures
        if is_timeout {
            r is Timeout
        } else {
            r == (ModelProviderError::HttpError { status: 0, body: message })
        },
{
    if is_timeout {
        ModelProviderError::Timeout
    } else {
        ModelProviderError::HttpError { status: 0, body: message }
    }
}

/// The error of an answer: there is none exactly where the status is 200.
pub fn status_error(status: u16, body: String) -> (r: Result<(), ModelProviderError>)
    ensures
        if status == 200 {
            r is Ok
        } else {
            r == Err::<(), ModelProviderError>(ModelProviderError::HttpError { status, body })
        },
{
    if status == 200 {
        Ok(())
    } else {
        Err(ModelProviderError::HttpError { status, body })
    }
}

} // verus!
