//! The configuration templates on offer, and how one is rendered.
//!
//! A template is a text with three placeholders, one for each section that
//! all providers share. The texts themselves are handed in by the caller.

use vstd::prelude::*;
use vstd::string::*;
use crate::text::{replace, replaced, same_text};

verus! {

/// The settings that a template fills into the shared settings section.
#[derive(Clone, Copy)]
pub struct TemplateSettings {
    pub langfuse_enable: bool,
    pub logging_level: &'static str,
    pub development: bool,
}

/// Which family of model bindings a template overrides in the pipeline section.
#[derive(Clone, Copy, Debug, PartialEq, Eq, Structural)]
pub enum PipelineOverrides {
    /// Every pipeline step uses the default model.
    Standard,
    /// DeepSeek chat for answers, DeepSeek reasoner for reasoning.
    DeepSeek,
    /// A Gemini model of its own for charts.
    GeminiChart,
    /// Qwen3 fast for answers, Qwen3 thinking for reasoning.
    Qwen3,
    /// GLM-4.5 fast for answers, GLM-4.5 thinking for reasoning.
    Zhipu,
}

/// A configuration template on offer.
pub struct ConfigTemplate {
    pub key: &'static str,
    pub name: &'static str,
    pub description: &'static str,
    pub pipeline_overrides: PipelineOverrides,
    pub settings: TemplateSettings,
}

/// The texts that rendering works on.
pub struct TemplateTexts {
    /// The provider's own template, with the three section placeholders.
    pub provider: String,
    /// The engine section shared by all providers.
    pub engine: String,
    /// The pipeline section shared by all providers, with one placeholder per model binding.
    pub pipeline: String,
    /// The settings section shared by all providers, with its three placeholders.
    pub settings: String,
}

/// Number of templates on offer.
pub const TEMPLATE_COUNT: usize = 14;

/// The model that a pipeline step is bound to unless the template overrides it.
pub open spec fn default_model() -> Seq<char> {
    "litellm_llm.default"@
}

/// The placeholder of the `i`-th model binding of the pipeline section.
pub open spec fn binding_placeholder(i: int) -> Seq<char> {
    if i == 0 {
        "{{LLM_SQL_ANSWER}}"@
    } else if i == 1 {
        "{{LLM_DATA_ASSISTANCE}}"@
    } else if i == 2 {
        "{{LLM_CHART_GENERATION}}"@
    } else if i == 3 {
        "{{LLM_CHART_ADJUSTMENT}}"@
    } else if i == 4 {
        "{{LLM_SQL_GENERATION_REASONING}}"@
    } else {
        "{{LLM_FOLLOWUP_SQL_GENERATION_REASONING}}"@
    }
}

/// Number of model bindings in the pipeline section.
pub const BINDING_COUNT: usize = 6;

/// The model that the `i`-th binding gets under the given overrides: answers
/// are bindings 0 and 1, charts 2 and 3, reasoning 4 and 5.
pub open spec fn binding_model(overrides: PipelineOverrides, i: int) -> Seq<char> {
    match overrides {
        PipelineOverrides::Standard => default_model(),
        PipelineOverrides::DeepSeek => if i == 0 || i == 1 {
            "litellm_llm.deepseek/deepseek-chat"@
        } else if i == 4 || i == 5 {
            "litellm_llm.deepseek/deepseek-reasoner"@
        } else {
            default_model()
        },
        PipelineOverrides::GeminiChart => if i == 2 || i == 3 {
            "litellm_llm.gemini-llm-for-chart"@
        } else {
            default_model()
        },
        PipelineOverrides::Qwen3 => if i == 0 || i == 1 {
            "litellm_llm.qwen3-fast"@
        } else if i == 4 || i == 5 {
            "litellm_llm.qwen3-thinking"@
        } else {
            default_model()
        },
        PipelineOverrides::Zhipu => if i == 0 || i == 1 {
            "litellm_llm.glm45-fast"@
        } else if i == 4 || i == 5 {
            "litellm_llm.glm45-thinking"@
        } else {
            default_model()
        },
    }
}

/// The placeholder of the `i`-th model binding.
fn placeholder_of(i: usize) -> (p: &'static str)
    ensures
        p@ == binding_placeholder(i as int),
{
    if i == 0 {
        "{{LLM_SQL_ANSWER}}"
    } else if i == 1 {
        "{{LLM_DATA_ASSISTANCE}}"
    } else if i == 2 {
        "{{LLM_CHART_GENERATION}}"
    } else if i == 3 {
        "{{LLM_CHART_ADJUSTMENT}}"
    } else if i == 4 {
        "{{LLM_SQL_GENERATION_REASONING}}"
    } else {
        "{{LLM_FOLLOWUP_SQL_GENERATION_REASONING}}"
    }
}

/// The model that the `i`-th binding gets under the given overrides.
fn model_of(overrides: PipelineOverrides, i: usize) -> (m: &'static str)
    ensures
        m@ == binding_model(overrides, i as int),
{
    let answers = i == 0 || i == 1;
    let charts = i == 2 || i == 3;
    let reasoning = i == 4 || i == 5;
    match overrides {
        PipelineOverrides::Standard => "litellm_llm.default",
        PipelineOverrides::DeepSeek => if answers {
            "litellm_llm.deepseek/deepseek-chat"
        } else if reasoning {
            "litellm_llm.deepseek/deepseek-reasoner"
        } else {
            "litellm_llm.default"
        },
        PipelineOverrides::GeminiChart => if charts {
            "litellm_llm.gemini-llm-for-chart"
        } else {
            "litellm_llm.default"
        },
        PipelineOverrides::Qwen3 => if answers {
            "litellm_llm.qwen3-fast"
        } else if reasoning {
            "litellm_llm.qwen3-thinking"
        } else {
            "litellm_llm.default"
        },
        PipelineOverrides::Zhipu => if answers {
            "litellm_llm.glm45-fast"
        } else if reasoning {
            "litellm_llm.glm45-thinking"
        } else {
            "litellm_llm.default"
        },
    }
}

/// The pipeline section after its first `n` bindings are filled in, one after the other.
pub open spec fn pipeline_filled(section: Seq<char>, overrides: PipelineOverrides, n: nat) -> Seq<
    char,
>
    decreases n,
{
    if n == 0 {
        section
    } else {
        replaced(
            pipeline_filled(section, overrides, (n - 1) as nat),
            binding_placeholder(n - 1),
            binding_model(overrides, n - 1),
        )
    }
}

/// How a flag is written in the settings section.
pub open spec fn bool_text(value: bool) -> Seq<char> {
    if value {
        "true"@
    } else {
        "false"@
    }
}

/// The settings section with its three placeholders filled in.
pub open spec fn settings_filled(section: Seq<char>, settings: TemplateSettings) -> Seq<char> {
    replaced(
        replaced(
            replaced(section, "{{LANGFUSE_ENABLE}}"@, bool_text(settings.langfuse_enable)),
            "{{LOGGING_LEVEL}}"@,
            settings.logging_level@,
        ),
        "{{DEVELOPMENT}}"@,
        bool_text(settings.development),
    )
}

/// The rendered configuration: the provider's template with the engine
/// section, the filled-in pipeline section and the filled-in settings section
/// put in, in this order.
pub open spec fn rendered(template: ConfigTemplate, texts: TemplateTexts) -> Seq<char> {
    replaced(
        replaced(
            replaced(texts.provider@, "{{ENGINE_SECTION}}"@, texts.engine@),
            "{{PIPELINE_SECTION}}"@,
            pipeline_filled(texts.pipeline@, template.pipeline_overrides, BINDING_COUNT as nat),
        ),
        "{{SETTINGS_SECTION}}"@,
        settings_filled(texts.settings@, template.settings),
    )
}

/// How a flag is written in the settings section.
pub fn bool_literal(value: bool) -> (text: &'static str)
    ensures
        text@ == bool_text(value),
{
    if value {
        "true"
    } else {
        "false"
    }
}

/// Fills the model bindings into the pipeline section.
pub fn render_pipeline(overrides: PipelineOverrides, section: &str) -> (out: String)
    ensures
        out@ == pipeline_filled(section@, overrides, BINDING_COUNT as nat),
{
    let mut out = String::from_str(section);
    let mut i: usize = 0;
    while i < BINDING_COUNT
        invariant
            i <= BINDING_COUNT,
            out@ == pipeline_filled(section@, overrides, i as nat),
        decreases BINDING_COUNT - i,
    {
        out = replace(out.as_str(), placeholder_of(i), model_of(overrides, i));
        i += 1;
    }
    out
}

/// Fills the settings into the settings section.
pub fn render_settings(settings: &TemplateSettings, section: &str) -> (out: String)
    ensures
        out@ == settings_filled(section@, *settings),
{
    let a = replace(section, "{{LANGFUSE_ENABLE}}", bool_literal(settings.langfuse_enable));
    let b = replace(a.as_str(), "{{LOGGING_LEVEL}}", settings.logging_level);
    replace(b.as_str(), "{{DEVELOPMENT}}", bool_literal(settings.development))
}

impl ConfigTemplate {
    /// Renders the configuration file for this template.
    pub fn render(&self, texts: &TemplateTexts) -> (out: String)
        ensures
            out@ == rendered(*self, *texts),
    {
        let content = replace(texts.provider.as_str(), "{{ENGINE_SECTION}}", texts.engine.as_str());
        let pipeline = render_pipeline(self.pipeline_overrides, texts.pipeline.as_str());
        let content = replace(content.as_str(), "{{PIPELINE_SECTION}}", pipeline.as_str());
        let settings = render_settings(&self.settings, texts.settings.as_str());
        replace(content.as_str(), "{{SETTINGS_SECTION}}", settings.as_str())
    }
}

/// The key of the `i`-th template on offer.
pub open spec fn template_key(i: int) -> Seq<char> {
    if i == 0 {
        "openai"@
    } else if i == 1 {
        "anthropic"@
    } else if i == 2 {
        "azure"@
    } else if i == 3 {
        "bedrock"@
    } else if i == 4 {
        "deepseek"@
    } else if i == 5 {
        "google_ai_studio"@
    } else if i == 6 {
        "google_vertexai"@
    } else if i == 7 {
        "grok"@
    } else if i == 8 {
        "groq"@
    } else if i == 9 {
        "lm_studio"@
    } else if i == 10 {
        "ollama"@
    } else if i == 11 {
        "open_router"@
    } else if i == 12 {
        "qwen3"@
    } else {
        "zhipu"@
    }
}

/// The model bindings that the `i`-th template on offer overrides.
pub open spec fn template_overrides(i: int) -> PipelineOverrides {
    if i == 4 {
        PipelineOverrides::DeepSeek
    } else if i == 5 || i == 6 {
        PipelineOverrides::GeminiChart
    } else if i == 12 {
        PipelineOverrides::Qwen3
    } else if i == 13 {
        PipelineOverrides::Zhipu
    } else {
        PipelineOverrides::Standard
    }
}

/// Whether `settings` are those of the `i`-th template on offer: the first
/// template logs at level `INFO` without tracing; all others log at level
/// `DEBUG` with tracing, and all but the first four and the twelfth run in
/// development mode.
pub open spec fn is_template_settings(i: int, settings: TemplateSettings) -> bool {
    &&& settings.langfuse_enable == (i != 0)
    &&& settings.logging_level@ == (if i == 0 {
        "INFO"@
    } else {
        "DEBUG"@
    })
    &&& settings.development == !(i <= 3 || i == 11)
}

/// Whether `t` is the `i`-th template on offer, as far as rendering goes.
pub open spec fn is_template(i: int, t: ConfigTemplate) -> bool {
    &&& t.key@ == template_key(i)
    &&& t.pipeline_overrides == template_overrides(i)
    &&& is_template_settings(i, t.settings)
}

/// Settings with tracing switched on and the given development flag.
fn debug_settings(development: bool) -> (s: TemplateSettings)
    ensures
        s.langfuse_enable,
        s.logging_level@ == "DEBUG"@,
        s.development == development,
{
    TemplateSettings { langfuse_enable: true, logging_level: "DEBUG", development }
}

/// The `i`-th template on offer.
pub fn config_template(i: usize) -> (t: ConfigTemplate)
    requires
        i < TEMPLATE_COUNT,
    ensures
        is_template(i as int, t),
{
    if i == 0 {
        ConfigTemplate {
            key: "openai",
            name: "OpenAI (GPT-4o mini)",
            description: "Use OpenAI gpt-4o-mini with text-embedding-3-large",
            pipeline_overrides: PipelineOverrides::Standard,
            settings: TemplateSettings {
                langfuse_enable: false,
                logging_level: "INFO",
                development: false,
            },
        }
    } else if i == 1 {
        ConfigTemplate {
            key: "anthropic",
            name: "Anthropic 3.7 Sonnet",
            description: "Anthropic models via api.anthropic.com",
            pipeline_overrides: PipelineOverrides::Standard,
            settings: debug_settings(false),
        }
    } else if i == 2 {
        ConfigTemplate {
            key: "azure",
            name: "Azure OpenAI",
            description: "Azure OpenAI deployment using gpt-4",
            pipeline_overrides: PipelineOverrides::Standard,
            settings: debug_settings(false),
        }
    } else if i == 3 {
        ConfigTemplate {
            key: "bedrock",
            name: "AWS Bedrock",
            description: "Amazon Bedrock Sonnet + Titan embeddings",
            pipeline_overrides: PipelineOverrides::Standard,
            settings: debug_settings(false),
        }
    } else if i == 4 {
        ConfigTemplate {
            key: "deepseek",
            name: "DeepSeek",
            description: "DeepSeek reasoning and chat models via api.deepseek.com",
            pipeline_overrides: PipelineOverrides::DeepSeek,
            settings: debug_settings(true),
        }
    } else if i == 5 {
        ConfigTemplate {
            key: "google_ai_studio",
            name: "Google Gemini (AI Studio)",
            description: "Gemini 2.0 Flash via Google AI Studio",
            pipeline_overrides: PipelineOverrides::GeminiChart,
            settings: debug_settings(true),
        }
    } else if i == 6 {
        ConfigTemplate {
            key: "google_vertexai",
            name: "Google Gemini (Vertex AI)",
            description: "Gemini 2.5 Flash via Vertex AI",
            pipeline_overrides: PipelineOverrides::GeminiChart,
            settings: debug_settings(true),
        }
    } else if i == 7 {
        ConfigTemplate {
            key: "grok",
            name: "xAI Grok",
            description: "xAI Grok 3 via api.x.ai",
            pipeline_overrides: PipelineOverrides::Standard,
            settings: debug_settings(true),
        }
    } else if i == 8 {
        ConfigTemplate {
            key: "groq",
            name: "Groq Llama 3.3",
            description: "Groq API with Llama 3.3 70B specdec",
            pipeline_overrides: PipelineOverrides::Standard,
            settings: debug_settings(true),
        }
    } else if i == 9 {
        ConfigTemplate {
            key: "lm_studio",
            name: "LM Studio",
            description: "Local LM Studio endpoint (phi-4 + nomic embeddings)",
            pipeline_overrides: PipelineOverrides::Standard,
            settings: debug_settings(true),
        }
    } else if i == 10 {
        ConfigTemplate {
            key: "ollama",
            name: "Ollama",
            description: "Local Ollama with phi4:14b",
            pipeline_overrides: PipelineOverrides::Standard,
            settings: debug_settings(true),
        }
    } else if i == 11 {
        ConfigTemplate {
            key: "open_router",
            name: "OpenRouter",
            description: "OpenRouter 3.7 Sonnet (Anthropic)",
            pipeline_overrides: PipelineOverrides::Standard,
            settings: debug_settings(false),
        }
    } else if i == 12 {
        ConfigTemplate {
            key: "qwen3",
            name: "Qwen3",
            description: "Qwen3 via OpenRouter with thinking and fast modes",
            pipeline_overrides: PipelineOverrides::Qwen3,
            settings: debug_settings(true),
        }
    } else {
        ConfigTemplate {
            key: "zhipu",
            name: "Zhipu GLM-4.5",
            description: "Zhipu AI GLM-4.5 with thinking/fast variants",
            pipeline_overrides: PipelineOverrides::Zhipu,
            settings: debug_settings(true),
        }
    }
}

/// All templates on offer, in the order in which they are listed.
pub fn config_templates() -> (list: Vec<ConfigTemplate>)
    ensures
        list@.len() == TEMPLATE_COUNT,
        forall|i: int| 0 <= i < TEMPLATE_COUNT ==> is_template(i, #[trigger] list@[i]),
{
    let mut list: Vec<ConfigTemplate> = Vec::new();
    let mut i: usize = 0;
    while i < TEMPLATE_COUNT
        invariant
            i <= TEMPLATE_COUNT,
            list@.len() == i,
            forall|k: int| 0 <= k < i ==> is_template(k, #[trigger] list@[k]),
        decreases TEMPLATE_COUNT - i,
    {
        list.push(config_template(i));
        i += 1;
    }
    list
}

} // verus!
