//! The form on which the operator enters the API keys of the chosen provider.

use vstd::prelude::*;
use vstd::string::*;
use crate::text::{blank, is_blank, join2, same_text};

verus! {

/// What the operator has entered on the form, and where the cursor stands.
#[derive(Clone, Debug)]
pub struct FormData {
    pub api_key: String,
    /// Key for OpenAI, which some providers need for their embedding model.
    pub openai_api_key: String,
    pub selected_provider: String,
    pub current_field: usize,
    pub editing: bool,
    pub error_message: String,
}

/// Whether the provider runs locally and needs no key.
pub open spec fn is_local_provider(provider: Seq<char>) -> bool {
    provider == "lm_studio"@ || provider == "ollama"@
}

/// Whether the provider relies on OpenAI for its embedding model.
pub open spec fn uses_openai_embedding(provider: Seq<char>) -> bool {
    provider == "deepseek"@ || provider == "anthropic"@ || provider == "groq"@ || provider
        == "grok"@ || provider == "zhipu"@ || provider == "qwen3"@
}

/// The name under which the provider's key is asked for.
pub open spec fn api_key_name(provider: Seq<char>) -> Seq<char> {
    if provider == "anthropic"@ {
        "Anthropic"@
    } else if provider == "openai"@ {
        "OpenAI"@
    } else if provider == "deepseek"@ {
        "DeepSeek"@
    } else if provider == "azure"@ {
        "Azure OpenAI"@
    } else if provider == "bedrock"@ {
        "AWS"@
    } else if provider == "google_ai_studio"@ {
        "Google AI Studio"@
    } else if provider == "google_vertexai"@ {
        "Google Vertex AI"@
    } else if provider == "grok"@ {
        "xAI Grok"@
    } else if provider == "groq"@ {
        "Groq"@
    } else if provider == "lm_studio"@ {
        "LM Studio (Local - No API Key)"@
    } else if provider == "ollama"@ {
        "Ollama (Local - No API Key)"@
    } else if provider == "open_router"@ {
        "OpenRouter"@
    } else if provider == "qwen3"@ {
        "Qwen"@
    } else if provider == "zhipu"@ {
        "Zhipu"@
    } else {
        "API"@
    }
}

/// The environment variable that carries the provider's key; empty where none is needed.
pub open spec fn env_key_name(provider: Seq<char>) -> Seq<char> {
    if provider == "anthropic"@ {
        "ANTHROPIC_API_KEY"@
    } else if provider == "openai"@ {
        "OPENAI_API_KEY"@
    } else if provider == "deepseek"@ {
        "DEEPSEEK_API_KEY"@
    } else if provider == "azure"@ {
        "AZURE_OPENAI_API_KEY"@
    } else if provider == "google_ai_studio"@ {
        "GEMINI_API_KEY"@
    } else if provider == "google_vertexai"@ {
        "GOOGLE_APPLICATION_CREDENTIALS"@
    } else if provider == "grok"@ {
        "XAI_API_KEY"@
    } else if provider == "groq"@ {
        "GROQ_API_KEY"@
    } else if provider == "lm_studio"@ {
        "LM_STUDIO_API_KEY"@
    } else if provider == "ollama"@ {
        ""@
    } else if provider == "open_router"@ {
        "OPENROUTER_API_KEY"@
    } else if provider == "qwen3"@ {
        "OPENROUTER_API_KEY"@
    } else if provider == "zhipu"@ {
        "ZHIPU_API_KEY"@
    } else {
        "API_KEY"@
    }
}

/// What is wrong with the form, if anything: a missing provider key comes
/// before a missing OpenAI key, and local providers need neither.
pub open spec fn form_error(form: FormData) -> Option<Seq<char>> {
    let provider = form.selected_provider@;
    if is_local_provider(provider) {
        None
    } else if is_blank(form.api_key@) {
        Some(api_key_name(provider) + " API Key is required!"@)
    } else if uses_openai_embedding(provider) && is_blank(form.openai_api_key@) {
        Some("OpenAI API Key is required for embedding model!"@)
    } else {
        None
    }
}

impl FormData {
    /// An empty form with no provider chosen.
    pub fn new() -> (form: FormData)
        ensures
            form.api_key@.len() == 0,
            form.openai_api_key@.len() == 0,
            form.selected_provider@.len() == 0,
            form.current_field == 0,
            !form.editing,
            form.error_message@.len() == 0,
    {
        FormData {
            api_key: String::new(),
            openai_api_key: String::new(),
            selected_provider: String::new(),
            current_field: 0,
            editing: false,
            error_message: String::new(),
        }
    }

    /// Checks the form. The error message is set to what is wrong, or emptied
    /// if nothing is.
    pub fn validate(&mut self) -> (ok: bool)
        ensures
            ok == (form_error(*old(self)) is None),
            final(self).error_message@ == (match form_error(*old(self)) {
                Some(message) => message,
                None => Seq::empty(),
            }),
            final(self).api_key == old(self).api_key,
            final(self).openai_api_key == old(self).openai_api_key,
            final(self).selected_provider == old(self).selected_provider,
            final(self).current_field == old(self).current_field,
            final(self).editing == old(self).editing,
    {
        let provider = self.selected_provider.as_str();
        if same_text(provider, "lm_studio") || same_text(provider, "ollama") {
            self.error_message = String::new();
            return true;
        }
        if blank(self.api_key.as_str()) {
            self.error_message = join2(self.get_api_key_name(), " API Key is required!");
            return false;
        }
        if self.needs_openai_embedding() && blank(self.openai_api_key.as_str()) {
            self.error_message = String::from_str("OpenAI API Key is required for embedding model!");
            return false;
        }
        self.error_message = String::new();
        true
    }

    /// The text that the cursor stands on: the OpenAI key on the second field,
    /// the provider's key on every other.
    pub fn get_current_value_mut(&mut self) -> (value: &mut String)
        ensures
            *value == (if old(self).current_field == 1 {
                old(self).openai_api_key
            } else {
                old(self).api_key
            }),
            final(self).api_key == (if old(self).current_field == 1 {
                old(self).api_key
            } else {
                *final(value)
            }),
            final(self).openai_api_key == (if old(self).current_field == 1 {
                *final(value)
            } else {
                old(self).openai_api_key
            }),
            final(self).selected_provider == old(self).selected_provider,
            final(self).current_field == old(self).current_field,
            final(self).editing == old(self).editing,
            final(self).error_message == old(self).error_message,
    {
        if self.current_field == 1 {
            &mut self.openai_api_key
        } else {
            &mut self.api_key
        }
    }

    /// Whether the chosen provider relies on OpenAI for its embedding model.
    pub fn needs_openai_embedding(&self) -> (r: bool)
        ensures
            r == uses_openai_embedding(self.selected_provider@),
    {
        let provider = self.selected_provider.as_str();
        same_text(provider, "deepseek") || same_text(provider, "anthropic") || same_text(
            provider,
            "groq",
        ) || same_text(provider, "grok") || same_text(provider, "zhipu") || same_text(
            provider,
            "qwen3",
        )
    }

    /// Number of fields on the form: two where an OpenAI key is needed as well, else one.
    pub fn get_total_fields(&self) -> (n: usize)
        ensures
            n == (if uses_openai_embedding(self.selected_provider@) {
                2usize
            } else {
                1usize
            }),
    {
        if self.needs_openai_embedding() {
            2
        } else {
            1
        }
    }

    /// The name under which the provider's key is asked for.
    pub fn get_api_key_name(&self) -> (name: &'static str)
        ensures
            name@ == api_key_name(self.selected_provider@),
    {
        let provider = self.selected_provider.as_str();
        if same_text(provider, "anthropic") {
            "Anthropic"
        } else if same_text(provider, "openai") {
            "OpenAI"
        } else if same_text(provider, "deepseek") {
            "DeepSeek"
        } else if same_text(provider, "azure") {
            "Azure OpenAI"
        } else if same_text(provider, "bedrock") {
            "AWS"
        } else if same_text(provider, "google_ai_studio") {
            "Google AI Studio"
        } else if same_text(provider, "google_vertexai") {
            "Google Vertex AI"
        } else if same_text(provider, "grok") {
            "xAI Grok"
        } else if same_text(provider, "groq") {
            "Groq"
        } else if same_text(provider, "lm_studio") {
            "LM Studio (Local - No API Key)"
        } else if same_text(provider, "ollama") {
            "Ollama (Local - No API Key)"
        } else if same_text(provider, "open_router") {
            "OpenRouter"
        } else if same_text(provider, "qwen3") {
            "Qwen"
        } else if same_text(provider, "zhipu") {
            "Zhipu"
        } else {
            "API"
        }
    }

    /// The environment variable that carries the provider's key; empty where none is needed.
    pub fn get_env_key_name(&self) -> (name: &'static str)
        ensures
            name@ == env_key_name(self.selected_provider@),
    {
        let provider = self.selected_provider.as_str();
        if same_text(provider, "anthropic") {
            "ANTHROPIC_API_KEY"
        } else if same_text(provider, "openai") {
            "OPENAI_API_KEY"
        } else if same_text(provider, "deepseek") {
            "DEEPSEEK_API_KEY"
        } else if same_text(provider, "azure") {
            "AZURE_OPENAI_API_KEY"
        } else if same_text(provider, "google_ai_studio") {
            "GEMINI_API_KEY"
        } else if same_text(provider, "google_vertexai") {
            "GOOGLE_APPLICATION_CREDENTIALS"
        } else if same_text(provider, "grok") {
            "XAI_API_KEY"
        } else if same_text(provider, "groq") {
            "GROQ_API_KEY"
        } else if same_text(provider, "lm_studio") {
            "LM_STUDIO_API_KEY"
        } else if same_text(provider, "ollama") {
            ""
        } else if same_text(provider, "open_router") {
            "OPENROUTER_API_KEY"
        } else if same_text(provider, "qwen3") {
            "OPENROUTER_API_KEY"
        } else if same_text(provider, "zhipu") {
            "ZHIPU_API_KEY"
        } else {
            "API_KEY"
        }
    }
}

} // verus!
