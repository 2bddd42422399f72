use vstd::prelude::*;

use crate::text::{trim_slashes_spec, trim_trailing_slashes};
use crate::transcription::TranscriptionError;

verus! {

/// The API version sent to Azure endpoints.
pub const AZURE_API_VERSION: &'static str = "2024-06-01";

/// OpenAI's model listing endpoint, used to validate a key.
pub const OPENAI_MODELS_URL: &'static str = "https://api.openai.com/v1/models";

/// OpenAI's transcription endpoint.
pub const OPENAI_TRANSCRIPTION_URL: &'static str = "https://api.openai.com/v1/audio/transcriptions";

/// The transcription providers.
#[derive(Debug, Clone, Copy, PartialEq, Eq, Structural)]
pub enum Provider {
    OpenAI,
    AzureOpenAI,
}

/// Application configuration, stored locally.
#[derive(Debug, Clone, Copy)]
pub struct AppConfig {
    /// The active provider; only one can be active.
    pub active_provider: Option<Provider>,
}

impl Default for AppConfig {
    fn default() -> (r: Self)
        ensures
            r.active_provider is None,
    {
        AppConfig { active_provider: None }
    }
}

/// OpenAI provider settings, stored in the keychain.
#[derive(Debug, Clone)]
pub struct OpenAIConfig {
    pub api_key: String,
}

/// Azure OpenAI provider settings, stored in the keychain.
#[derive(Debug, Clone)]
pub struct AzureOpenAIConfig {
    pub api_key: String,
    pub endpoint: String,
}

/// The steps of the onboarding wizard.
#[derive(Debug, Clone, Copy, PartialEq, Eq, Structural)]
pub enum OnboardingStep {
    Welcome,
    Accessibility,
    ApiKeys,
    FnHold,
    FnSpace,
    Complete,
}

impl Default for OnboardingStep {
    fn default() -> (r: Self)
        ensures
            r == OnboardingStep::Welcome,
    {
        OnboardingStep::Welcome
    }
}

/// Onboarding progress, stored locally.
#[derive(Debug, Clone, Copy)]
pub struct OnboardingConfig {
    /// Whether the user completed or skipped onboarding.
    pub finished: bool,
    /// The current step of the wizard.
    pub current_step: OnboardingStep,
    /// Whether the wizard resumes after a restart for the accessibility permission.
    pub pending_restart: bool,
}

impl Default for OnboardingConfig {
    fn default() -> (r: Self)
        ensures
            !r.finished,
            r.current_step == OnboardingStep::Welcome,
            !r.pending_restart,
    {
        OnboardingConfig {
            finished: false,
            current_step: OnboardingStep::Welcome,
            pending_restart: false,
        }
    }
}

/// The keychain accounts that hold provider settings.
#[derive(Debug, Clone, Copy, PartialEq, Eq, Structural)]
pub enum ProviderAccount {
    OpenAI,
    AzureOpenAI,
}

impl ProviderAccount {
    /// The keychain account name.
    pub open spec fn as_str_spec(&self) -> Seq<char> {
        match self {
            ProviderAccount::OpenAI => "provider:openai"@,
            ProviderAccount::AzureOpenAI => "provider:azure_openai"@,
        }
    }

    /// The keychain account name.
    pub fn as_str(&self) -> (r: &'static str)
        ensures
            r@ == self.as_str_spec(),
    {
        match self {
            ProviderAccount::OpenAI => "provider:openai",
            ProviderAccount::AzureOpenAI => "provider:azure_openai",
        }
    }
}

/// What an API call needs: the provider, its key, and for Azure the full
/// transcription endpoint without the API version.
#[derive(Debug, Clone)]
pub struct ApiConfig {
    pub provider: Provider,
    pub api_key: String,
    pub endpoint: String,
}

impl ApiConfig {
    /// The transcription URL.
    pub open spec fn transcription_url_spec(&self) -> Seq<char> {
        match self.provider {
            Provider::OpenAI => OPENAI_TRANSCRIPTION_URL@,
            Provider::AzureOpenAI => trim_slashes_spec(self.endpoint@) + "?api-version="@
                + AZURE_API_VERSION@,
        }
    }

    /// The URL used to validate a key.
    pub open spec fn models_url_spec(&self) -> Seq<char> {
        match self.provider {
            Provider::OpenAI => OPENAI_MODELS_URL@,
            Provider::AzureOpenAI => trim_slashes_spec(self.endpoint@)
                + "/openai/deployments?api-version="@ + AZURE_API_VERSION@,
        }
    }

    /// The full transcription URL: OpenAI's fixed endpoint, or the Azure
    /// endpoint without trailing slashes followed by the API version.
    pub fn transcription_url(&self) -> (r: String)
        ensures
            r@ == self.transcription_url_spec(),
    {
        match self.provider {
            Provider::OpenAI => String::from_str(OPENAI_TRANSCRIPTION_URL),
            Provider::AzureOpenAI => String::from_str(
                trim_trailing_slashes(self.endpoint.as_str()),
            ).concat("?api-version=").concat(AZURE_API_VERSION),
        }
    }

    /// The URL used to validate a key: OpenAI's model listing, or the Azure
    /// deployments listing under the endpoint.
    pub fn models_url(&self) -> (r: String)
        ensures
            r@ == self.models_url_spec(),
    {
        match self.provider {
            Provider::OpenAI => String::from_str(OPENAI_MODELS_URL),
            Provider::AzureOpenAI => String::from_str(
                trim_trailing_slashes(self.endpoint.as_str()),
            ).concat("/openai/deployments?api-version=").concat(AZURE_API_VERSION),
        }
    }

    /// Assembles the configuration of the enabled provider from what the
    /// settings hold: its key and, for Azure, its endpoint. No provider or no
    /// key means the key is missing; Azure without an endpoint is a
    /// configuration error. OpenAI needs no endpoint and gets an empty one.
    pub fn resolve(
        provider: Option<Provider>,
        api_key: Option<String>,
        azure_endpoint: Option<String>,
    ) -> (r: Result<ApiConfig, TranscriptionError>)
        ensures
            match (provider, api_key) {
                (Some(p), Some(key)) => match p {
                    Provider::OpenAI => r matches Ok(c) && c.provider == p && c.api_key@ == key@
                        && c.endpoint@.len() == 0,
                    Provider::AzureOpenAI => match azure_endpoint {
                        Some(ep) => r matches Ok(c) && c.provider == p && c.api_key@ == key@
                            && c.endpoint@ == ep@,
                        None => r matches Err(TranscriptionError::ApiError(m)) && m@
                            == "Azure endpoint not configured"@,
                    },
                },
                _ => r matches Err(TranscriptionError::ApiKeyMissing),
            },
    {
        let p = match provider {
            Some(p) => p,
            None => {
                return Err(TranscriptionError::ApiKeyMissing);
            },
        };
        let key = match api_key {
            Some(k) => k,
            None => {
                return Err(TranscriptionError::ApiKeyMissing);
            },
        };
        match p {
            Provider::OpenAI => {
                proof {
                    reveal_strlit("");
                }
                Ok(ApiConfig { provider: p, api_key: key, endpoint: String::from_str("") })
            },
            Provider::AzureOpenAI => match azure_endpoint {
                Some(ep) => Ok(ApiConfig { provider: p, api_key: key, endpoint: ep }),
                None => Err(
                    TranscriptionError::ApiError(String::from_str("Azure endpoint not configured")),
                ),
            },
        }
    }
}

} // verus!
