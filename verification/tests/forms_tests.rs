use nqrust_installer::auth::{
    after_identity_response, credential_variables, login_arguments, login_input, login_rejection,
    resolve_credential, ACCEPT, IDENTITY_TIMEOUT_SECONDS, IDENTITY_URL, REGISTRY_HOST, TOKEN_CACHE,
    USER_AGENT,
};
use nqrust_installer::form_data::FormData;
use nqrust_installer::menu::{clamp_selection, menu_options, position, select_above, select_below};
use nqrust_installer::registry_form::RegistryForm;
use nqrust_installer::state::MenuSelection;
use nqrust_installer::state::MenuSelection::{
    Cancel, CheckUpdates, GenerateConfig, GenerateEnv, Proceed, UpdateToken,
};
use nqrust_installer::supervisor::{DrainStep, ProcessSupervisor, ReadResult, Stream};

fn form(provider: &str, api_key: &str, openai: &str) -> FormData {
    let mut form = FormData::new();
    form.selected_provider = provider.to_string();
    form.api_key = api_key.to_string();
    form.openai_api_key = openai.to_string();
    form
}

#[test]
fn a_new_key_form_is_empty() {
    let form = FormData::new();
    assert_eq!(form.api_key, "");
    assert_eq!(form.openai_api_key, "");
    assert_eq!(form.selected_provider, "");
    assert_eq!(form.current_field, 0);
    assert!(!form.editing);
    assert_eq!(form.error_message, "");
}

#[test]
fn local_providers_need_no_key() {
    for provider in ["lm_studio", "ollama"] {
        let mut f = form(provider, "", "");
        f.error_message = "old".to_string();
        assert!(f.validate());
        assert_eq!(f.error_message, "");
    }
}

#[test]
fn a_missing_provider_key_is_named() {
    let mut f = form("openai", "  ", "");
    assert!(!f.validate());
    assert_eq!(f.error_message, "OpenAI API Key is required!");
    let mut g = form("bedrock", "", "");
    assert!(!g.validate());
    assert_eq!(g.error_message, "AWS API Key is required!");
    let mut h = form("", "", "");
    assert!(!h.validate());
    assert_eq!(h.error_message, "API API Key is required!");
    let mut i = form("anthropic", "", "");
    assert!(!i.validate());
    assert_eq!(i.error_message, "Anthropic API Key is required!");
}

#[test]
fn embedding_providers_need_an_openai_key_too() {
    for provider in ["deepseek", "anthropic", "groq", "grok", "zhipu", "qwen3"] {
        let mut f = form(provider, "key", " \t");
        assert!(f.needs_openai_embedding());
        assert_eq!(f.get_total_fields(), 2);
        assert!(!f.validate());
        assert_eq!(f.error_message, "OpenAI API Key is required for embedding model!");
        f.openai_api_key = "sk".to_string();
        assert!(f.validate());
        assert_eq!(f.error_message, "");
    }
    for provider in ["openai", "azure", "bedrock", "google_ai_studio", "open_router", "x"] {
        let mut f = form(provider, "key", "");
        assert!(!f.needs_openai_embedding());
        assert_eq!(f.get_total_fields(), 1);
        assert!(f.validate());
    }
}

#[test]
fn validation_leaves_the_entries_alone() {
    let mut f = form("groq", " key ", " sk ");
    f.current_field = 1;
    f.editing = true;
    assert!(f.validate());
    assert_eq!(f.api_key, " key ");
    assert_eq!(f.openai_api_key, " sk ");
    assert_eq!(f.current_field, 1);
    assert!(f.editing);
}

#[test]
fn the_cursor_picks_the_text_to_edit() {
    let mut f = form("groq", "a", "b");
    f.get_current_value_mut().push('1');
    assert_eq!(f.api_key, "a1");
    f.current_field = 1;
    f.get_current_value_mut().push('2');
    assert_eq!(f.openai_api_key, "b2");
    f.current_field = 7;
    f.get_current_value_mut().pop();
    assert_eq!(f.api_key, "a");
    assert_eq!(f.openai_api_key, "b2");
}

#[test]
fn provider_names_and_variables() {
    let table = [
        ("anthropic", "Anthropic", "ANTHROPIC_API_KEY"),
        ("openai", "OpenAI", "OPENAI_API_KEY"),
        ("deepseek", "DeepSeek", "DEEPSEEK_API_KEY"),
        ("azure", "Azure OpenAI", "AZURE_OPENAI_API_KEY"),
        ("bedrock", "AWS", "API_KEY"),
        ("google_ai_studio", "Google AI Studio", "GEMINI_API_KEY"),
        ("google_vertexai", "Google Vertex AI", "GOOGLE_APPLICATION_CREDENTIALS"),
        ("grok", "xAI Grok", "XAI_API_KEY"),
        ("groq", "Groq", "GROQ_API_KEY"),
        ("lm_studio", "LM Studio (Local - No API Key)", "LM_STUDIO_API_KEY"),
        ("ollama", "Ollama (Local - No API Key)", ""),
        ("open_router", "OpenRouter", "OPENROUTER_API_KEY"),
        ("qwen3", "Qwen", "OPENROUTER_API_KEY"),
        ("zhipu", "Zhipu", "ZHIPU_API_KEY"),
        ("something", "API", "API_KEY"),
        ("", "API", "API_KEY"),
        ("OpenAI", "API", "API_KEY"),
    ];
    for (provider, name, variable) in table {
        let f = form(provider, "", "");
        assert_eq!(f.get_api_key_name(), name, "name of {:?}", provider);
        assert_eq!(f.get_env_key_name(), variable, "variable of {:?}", provider);
    }
}

#[test]
fn the_credential_form() {
    let mut f = RegistryForm::new();
    assert_eq!(f.token, "");
    assert_eq!(f.current_field, 0);
    assert!(!f.editing);
    assert_eq!(f.total_items(), 2);
    assert!(RegistryForm::is_input_field(0));
    assert!(!RegistryForm::is_input_field(1));
    assert!(!f.validate());
    assert_eq!(f.error_message, "Personal access token is required");
    f.token = " \n".to_string();
    assert!(!f.validate());
    f.get_current_value_mut().push_str("ghp_x");
    assert_eq!(f.token, " \nghp_x");
    assert!(f.validate());
    assert_eq!(f.error_message, "");
    assert_eq!(f.token, " \nghp_x");
}

#[test]
fn the_menu_follows_the_prerequisites() {
    assert_eq!(menu_options(false, false, false), vec![GenerateConfig, CheckUpdates, Cancel]);
    assert_eq!(menu_options(false, false, true), vec![GenerateConfig, CheckUpdates, Cancel]);
    assert_eq!(menu_options(false, true, false), vec![GenerateEnv, CheckUpdates, Cancel]);
    assert_eq!(menu_options(false, true, true), vec![CheckUpdates, Proceed, Cancel]);
    assert_eq!(menu_options(true, false, false), vec![GenerateConfig, CheckUpdates, UpdateToken, Cancel]);
    assert_eq!(menu_options(true, true, false), vec![GenerateEnv, CheckUpdates, UpdateToken, Cancel]);
    assert_eq!(menu_options(true, true, true), vec![CheckUpdates, UpdateToken, Proceed, Cancel]);
}

#[test]
fn cycling_wraps_at_both_ends_and_stays_on_offer() {
    let all = [Proceed, GenerateEnv, GenerateConfig, CheckUpdates, UpdateToken, Cancel];
    for credential in [false, true] {
        for config in [false, true] {
            for env in [false, true] {
                let options = menu_options(credential, config, env);
                let first = options[0];
                let last = options[options.len() - 1];
                assert_eq!(select_above(&options, first), last);
                assert_eq!(select_below(&options, last), first);
                for (i, option) in options.iter().enumerate() {
                    assert_eq!(position(&options, *option), i);
                    if i + 1 < options.len() {
                        assert_eq!(select_below(&options, *option), options[i + 1]);
                        assert_eq!(select_above(&options, options[i + 1]), *option);
                    }
                }
                for selection in all {
                    assert!(options.contains(&select_above(&options, selection)));
                    assert!(options.contains(&select_below(&options, selection)));
                    let held = clamp_selection(&options, selection);
                    if options.contains(&selection) {
                        assert_eq!(held, selection);
                    } else {
                        assert_eq!(held, first);
                        assert_eq!(position(&options, selection), 0);
                    }
                }
            }
        }
    }
}

#[test]
fn the_supervisor_closes_each_stream_on_its_own() {
    let mut s = ProcessSupervisor::new("docker compose build");
    assert!(s.is_draining());
    assert!(matches!(
        s.on_read(Stream::Stdout, ReadResult::Line("hello".to_string())),
        DrainStep::Deliver(line) if line == "hello"
    ));
    assert!(s.reads(Stream::Stdout) && s.reads(Stream::Stderr));
    assert!(matches!(s.on_read(Stream::Stdout, ReadResult::End), DrainStep::Closed));
    assert!(!s.reads(Stream::Stdout));
    assert!(s.reads(Stream::Stderr));
    assert!(s.is_draining());
    assert!(matches!(
        s.on_read(Stream::Stdout, ReadResult::Line("late".to_string())),
        DrainStep::Ignored
    ));
    assert!(matches!(
        s.on_read(Stream::Stderr, ReadResult::Line("warn".to_string())),
        DrainStep::Deliver(line) if line == "warn"
    ));
    assert!(matches!(
        s.on_read(Stream::Stderr, ReadResult::Failed("broken pipe".to_string())),
        DrainStep::Warn(w) if w == "❌ Error reading stderr: broken pipe"
    ));
    assert!(!s.is_draining());
    let mut t = ProcessSupervisor::new("docker pull");
    assert!(matches!(
        t.on_read(Stream::Stdout, ReadResult::Failed("eof".to_string())),
        DrainStep::Warn(w) if w == "❌ Error reading stdout: eof"
    ));
    assert!(t.reads(Stream::Stderr));
}

#[test]
fn the_exit_status_decides_the_outcome() {
    let s = ProcessSupervisor::new("docker compose build");
    assert_eq!(s.conclude(Some(0)), Ok(()));
    assert_eq!(s.conclude(Some(1)), Err("docker compose build exited with status 1".to_string()));
    assert_eq!(s.conclude(Some(137)), Err("docker compose build exited with status 137".to_string()));
    assert_eq!(s.conclude(Some(-1)), Err("docker compose build exited with status -1".to_string()));
    assert_eq!(s.conclude(None), Err("docker compose build was terminated by a signal".to_string()));
    assert_eq!(
        ProcessSupervisor::could_not_start("docker pull", "No such file or directory"),
        "Failed to start docker pull: No such file or directory"
    );
    assert_eq!(
        ProcessSupervisor::could_not_capture("docker pull", Stream::Stderr),
        "Failed to capture stderr of docker pull"
    );
    assert_eq!(
        ProcessSupervisor::could_not_capture("docker pull", Stream::Stdout),
        "Failed to capture stdout of docker pull"
    );
}

#[test]
fn the_credential_comes_from_the_first_variable_that_is_set() {
    assert_eq!(credential_variables(), vec!["GHCR_TOKEN", "GITHUB_TOKEN", "GH_TOKEN"]);
    let none: Vec<Option<String>> = vec![None, None, None];
    assert_eq!(resolve_credential(&none, &None), None);
    assert_eq!(resolve_credential(&none, &Some("  cached\n".to_string())), Some("cached".to_string()));
    assert_eq!(resolve_credential(&none, &Some(" \n".to_string())), None);
    assert_eq!(resolve_credential(&vec![], &Some("c".to_string())), Some("c".to_string()));
    let second = vec![None, Some("two".to_string()), Some("three".to_string())];
    assert_eq!(resolve_credential(&second, &Some("cached".to_string())), Some("two".to_string()));
    let first = vec![Some(" one ".to_string()), Some("two".to_string()), None];
    assert_eq!(resolve_credential(&first, &None), Some(" one ".to_string()));
    let empty = vec![None, None, Some(String::new())];
    assert_eq!(resolve_credential(&empty, &Some("cached".to_string())), Some(String::new()));
}

#[test]
fn the_identity_answer_is_judged_by_its_status() {
    assert_eq!(after_identity_response(200, "200 OK", "{}"), Ok(()));
    assert_eq!(after_identity_response(204, "204 No Content", ""), Ok(()));
    assert_eq!(
        after_identity_response(401, "401 Unauthorized", "{\"message\":\"Bad credentials\"}"),
        Err("GitHub API returned 401 Unauthorized when fetching user info: {\"message\":\"Bad credentials\"}".to_string())
    );
    assert!(after_identity_response(199, "", "").is_err());
    assert!(after_identity_response(300, "", "").is_err());
    assert!(after_identity_response(500, "", "").is_err());
}

#[test]
fn the_token_goes_to_standard_input_not_to_the_arguments() {
    let arguments = login_arguments("octocat");
    assert_eq!(arguments, vec!["login", "ghcr.io", "-u", "octocat", "--password-stdin"]);
    assert_eq!(login_input("ghp_secret"), "ghp_secret\n");
    assert!(!arguments.iter().any(|a| a.contains("ghp_secret")));
}

#[test]
fn a_rejected_login_shows_the_first_line_of_the_diagnostics() {
    assert_eq!(
        login_rejection("\n  \nError response from daemon: denied\nsecond line\n"),
        "Docker login failed: Error response from daemon: denied"
    );
    assert_eq!(login_rejection(""), "Docker login failed: unknown error");
    assert_eq!(login_rejection(" \n\t\n"), "Docker login failed: unknown error");
}

#[test]
fn the_fixed_values_of_the_login() {
    assert_eq!(IDENTITY_URL, "https://api.github.com/user");
    assert_eq!(USER_AGENT, "nqrust-analytics");
    assert_eq!(ACCEPT, "application/vnd.github+json");
    assert_eq!(REGISTRY_HOST, "ghcr.io");
    assert_eq!(TOKEN_CACHE, ".config/nqrust/ghcr_token");
    assert_eq!(IDENTITY_TIMEOUT_SECONDS, 15);
}
