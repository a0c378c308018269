use nqrust_installer::env_file::{
    demo_user, generate_env_file, join_lines, render_env, split_lines,
};
use nqrust_installer::form_data::FormData;
use nqrust_installer::templates::{
    bool_literal, config_template, config_templates, render_pipeline, render_settings,
    PipelineOverrides, TemplateSettings, TemplateTexts, TEMPLATE_COUNT,
};

const PIPELINE: &str = "a: {{LLM_SQL_ANSWER}}\nb: {{LLM_DATA_ASSISTANCE}}\nc: {{LLM_CHART_GENERATION}}\nd: {{LLM_CHART_ADJUSTMENT}}\ne: {{LLM_SQL_GENERATION_REASONING}}\nf: {{LLM_FOLLOWUP_SQL_GENERATION_REASONING}}\ng: {{LLM_SQL_ANSWER}}";

const ENV: &str = "PORT={{ANALYTICS_AI_SERVICE_PORT}}\nUSER_UUID={{USER_UUID}}\nMODEL={{GENERATION_MODEL}}\nHOST_PORT={{HOST_PORT}}\nFORWARD={{AI_SERVICE_FORWARD_PORT}}\n\n# vendor keys\nOPENAI_API_KEY={{OPENAI_API_KEY}}\n\n# other\nTELEMETRY=false\n";

fn form(provider: &str, api_key: &str, openai: &str) -> FormData {
    let mut form = FormData::new();
    form.selected_provider = provider.to_string();
    form.api_key = api_key.to_string();
    form.openai_api_key = openai.to_string();
    form
}

#[test]
fn the_templates_on_offer() {
    let templates = config_templates();
    assert_eq!(TEMPLATE_COUNT, 14);
    assert_eq!(templates.len(), 14);
    let keys: Vec<&str> = templates.iter().map(|t| t.key).collect();
    assert_eq!(
        keys,
        vec![
            "openai", "anthropic", "azure", "bedrock", "deepseek", "google_ai_studio",
            "google_vertexai", "grok", "groq", "lm_studio", "ollama", "open_router", "qwen3", "zhipu",
        ]
    );
    assert_eq!(templates[0].name, "OpenAI (GPT-4o mini)");
    assert_eq!(templates[0].description, "Use OpenAI gpt-4o-mini with text-embedding-3-large");
    assert!(!templates[0].settings.langfuse_enable);
    assert_eq!(templates[0].settings.logging_level, "INFO");
    assert!(!templates[0].settings.development);
    assert_eq!(templates[4].pipeline_overrides, PipelineOverrides::DeepSeek);
    assert!(templates[4].settings.development);
    assert_eq!(templates[5].pipeline_overrides, PipelineOverrides::GeminiChart);
    assert_eq!(templates[6].pipeline_overrides, PipelineOverrides::GeminiChart);
    assert_eq!(templates[11].pipeline_overrides, PipelineOverrides::Standard);
    assert!(templates[11].settings.langfuse_enable);
    assert_eq!(templates[11].settings.logging_level, "DEBUG");
    assert!(!templates[11].settings.development);
    assert_eq!(templates[12].pipeline_overrides, PipelineOverrides::Qwen3);
    assert_eq!(templates[13].pipeline_overrides, PipelineOverrides::Zhipu);
    assert_eq!(config_template(10).key, "ollama");
    assert_eq!(config_template(10).name, "Ollama");
}

#[test]
fn the_pipeline_section_gets_its_model_bindings() {
    assert_eq!(
        render_pipeline(PipelineOverrides::Standard, PIPELINE),
        "a: litellm_llm.default\nb: litellm_llm.default\nc: litellm_llm.default\nd: litellm_llm.default\ne: litellm_llm.default\nf: litellm_llm.default\ng: litellm_llm.default"
    );
    assert_eq!(
        render_pipeline(PipelineOverrides::DeepSeek, PIPELINE),
        "a: litellm_llm.deepseek/deepseek-chat\nb: litellm_llm.deepseek/deepseek-chat\nc: litellm_llm.default\nd: litellm_llm.default\ne: litellm_llm.deepseek/deepseek-reasoner\nf: litellm_llm.deepseek/deepseek-reasoner\ng: litellm_llm.deepseek/deepseek-chat"
    );
    assert_eq!(
        render_pipeline(PipelineOverrides::GeminiChart, PIPELINE),
        "a: litellm_llm.default\nb: litellm_llm.default\nc: litellm_llm.gemini-llm-for-chart\nd: litellm_llm.gemini-llm-for-chart\ne: litellm_llm.default\nf: litellm_llm.default\ng: litellm_llm.default"
    );
    assert_eq!(
        render_pipeline(PipelineOverrides::Qwen3, PIPELINE),
        "a: litellm_llm.qwen3-fast\nb: litellm_llm.qwen3-fast\nc: litellm_llm.default\nd: litellm_llm.default\ne: litellm_llm.qwen3-thinking\nf: litellm_llm.qwen3-thinking\ng: litellm_llm.qwen3-fast"
    );
    assert_eq!(
        render_pipeline(PipelineOverrides::Zhipu, PIPELINE),
        "a: litellm_llm.glm45-fast\nb: litellm_llm.glm45-fast\nc: litellm_llm.default\nd: litellm_llm.default\ne: litellm_llm.glm45-thinking\nf: litellm_llm.glm45-thinking\ng: litellm_llm.glm45-fast"
    );
    assert_eq!(render_pipeline(PipelineOverrides::Zhipu, "no placeholders"), "no placeholders");
}

#[test]
fn the_settings_section_gets_its_settings() {
    assert_eq!(bool_literal(true), "true");
    assert_eq!(bool_literal(false), "false");
    let settings = TemplateSettings { langfuse_enable: true, logging_level: "DEBUG", development: false };
    assert_eq!(
        render_settings(
            &settings,
            "langfuse: {{LANGFUSE_ENABLE}}\nlevel: {{LOGGING_LEVEL}}\ndev: {{DEVELOPMENT}}\n"
        ),
        "langfuse: true\nlevel: DEBUG\ndev: false\n"
    );
}

#[test]
fn a_template_is_rendered_from_its_three_sections() {
    let texts = TemplateTexts {
        provider: "type: llm\n{{ENGINE_SECTION}}\n---\n{{PIPELINE_SECTION}}\n---\n{{SETTINGS_SECTION}}\n".to_string(),
        engine: "engine: duckdb".to_string(),
        pipeline: "sql: {{LLM_SQL_ANSWER}}\nchart: {{LLM_CHART_GENERATION}}".to_string(),
        settings: "dev: {{DEVELOPMENT}}, level: {{LOGGING_LEVEL}}, trace: {{LANGFUSE_ENABLE}}".to_string(),
    };
    assert_eq!(
        config_template(4).render(&texts),
        "type: llm\nengine: duckdb\n---\nsql: litellm_llm.deepseek/deepseek-chat\nchart: litellm_llm.default\n---\ndev: true, level: DEBUG, trace: true\n"
    );
    assert_eq!(
        config_template(0).render(&texts),
        "type: llm\nengine: duckdb\n---\nsql: litellm_llm.default\nchart: litellm_llm.default\n---\ndev: false, level: INFO, trace: false\n"
    );
}

#[test]
fn lines_are_split_and_joined() {
    assert_eq!(split_lines("a\nb\r\n\nc"), vec!["a", "b", "", "c"]);
    assert_eq!(split_lines("a\n"), vec!["a"]);
    assert_eq!(split_lines("a\n\n"), vec!["a", ""]);
    assert_eq!(split_lines("a\r"), vec!["a\r"]);
    assert_eq!(split_lines("\r\n"), vec![""]);
    assert!(split_lines("").is_empty());
    for text in ["", "x", "a\nb", "a\r\nb\n", "\n\n", "a\rb\n\rc"] {
        let expected: Vec<String> = text.lines().map(|l| l.to_string()).collect();
        assert_eq!(split_lines(text), expected, "lines of {:?}", text);
    }
    assert_eq!(join_lines(&vec!["a".to_string(), "".to_string(), "b".to_string()]), "a\n\nb");
    assert_eq!(join_lines(&vec!["a".to_string()]), "a");
    assert_eq!(join_lines(&vec![]), "");
}

#[test]
fn the_demo_user_is_named_after_the_first_part_of_the_identifier() {
    assert_eq!(demo_user("1b4e28ba-2fa1-11d2-883f-0016d3cca427"), "demo-user-1b4e28ba");
    assert_eq!(demo_user("abc"), "demo-user-abc");
    assert_eq!(demo_user("-abc"), "demo-user-");
    assert_eq!(demo_user(""), "demo-user-");
}

#[test]
fn a_provider_without_a_key_leaves_the_openai_line_empty() {
    assert_eq!(
        render_env(ENV, "1b4e28ba-2fa1", &form("ollama", "ignored", "ignored")),
        "PORT=5555\nUSER_UUID=demo-user-1b4e28ba\nMODEL=default\nHOST_PORT=3000\nFORWARD=5555\n\n# vendor keys\nOPENAI_API_KEY=\n\n# other\nTELEMETRY=false\n"
    );
}

#[test]
fn openai_fills_its_key_into_the_openai_line() {
    assert_eq!(
        render_env(ENV, "x-y", &form("openai", "  sk-1  ", "")),
        "PORT=5555\nUSER_UUID=demo-user-x\nMODEL=default\nHOST_PORT=3000\nFORWARD=5555\n\n# vendor keys\nOPENAI_API_KEY=sk-1\n\n# other\nTELEMETRY=false\n"
    );
}

#[test]
fn other_providers_get_a_line_of_their_own_after_the_vendor_comment() {
    assert_eq!(
        render_env(ENV, "x", &form("azure", " az ", "unused")),
        "PORT=5555\nUSER_UUID=demo-user-x\nMODEL=default\nHOST_PORT=3000\nFORWARD=5555\n\n# vendor keys\nAZURE_OPENAI_API_KEY=az\n\n# other\nTELEMETRY=false"
    );
    assert_eq!(
        render_env(ENV, "x", &form("anthropic", "ant", " sk ")),
        "PORT=5555\nUSER_UUID=demo-user-x\nMODEL=default\nHOST_PORT=3000\nFORWARD=5555\n\n# vendor keys\nANTHROPIC_API_KEY=ant\nOPENAI_API_KEY=sk\n\n# other\nTELEMETRY=false"
    );
    assert_eq!(
        render_env(ENV, "x", &form("anthropic", "ant", "  ")),
        "PORT=5555\nUSER_UUID=demo-user-x\nMODEL=default\nHOST_PORT=3000\nFORWARD=5555\n\n# vendor keys\nANTHROPIC_API_KEY=ant\n\n# other\nTELEMETRY=false"
    );
}

#[test]
fn existing_key_lines_are_replaced_and_missing_ones_are_added_at_the_end() {
    let template = "A=1\n  GROQ_API_KEY=old\nOPENAI_API_KEY=old\nB=2";
    assert_eq!(
        render_env(template, "x", &form("groq", "gk", "ok")),
        "A=1\nGROQ_API_KEY=gk\nOPENAI_API_KEY=ok\nB=2"
    );
    assert_eq!(
        render_env(template, "x", &form("groq", "gk", "")),
        "A=1\nGROQ_API_KEY=gk\nB=2"
    );
    assert_eq!(render_env("A=1\nB=2\n", "x", &form("zhipu", "zk", "ok")), "A=1\nB=2\nZHIPU_API_KEY=zk\nOPENAI_API_KEY=ok");
    assert_eq!(render_env("", "x", &form("azure", "az", "")), "AZURE_OPENAI_API_KEY=az");
    assert_eq!(
        render_env("# vendor keys\n# vendor keys\nOPENAI_API_KEY=", "x", &form("deepseek", "d", "o")),
        "# vendor keys\nDEEPSEEK_API_KEY=d\nOPENAI_API_KEY=o\n# vendor keys"
    );
}

#[test]
fn a_generated_environment_file_names_a_fresh_demo_user() {
    let content = generate_env_file("U={{USER_UUID}}", &form("ollama", "", ""));
    let name = content.strip_prefix("U=demo-user-").expect("the demo user is named");
    assert_eq!(name.len(), 8);
    assert!(name.chars().all(|c| c.is_ascii_hexdigit()));
    let other = generate_env_file("U={{USER_UUID}}", &form("ollama", "", ""));
    assert!(other.starts_with("U=demo-user-"));
}
