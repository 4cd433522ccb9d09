use apprentice::app_config::{Config, Goal};
use apprentice::options::{validate_mandatory_options, Options};
use apprentice::toml_parser::parse_toml_config;
use apprentice::util::api_url_for_provider;
use apprentice::{AppError, ModelProvider};

fn full_options() -> Options {
    Options {
        goal: Some("aws".into()),
        model_provider: Some("anthropic".into()),
        model: Some("mdl".into()),
        api_key: Some("apk".into()),
        api_url: Some("apr".into()),
        api_version: Some("apv".into()),
        max_tokens: Some(1024),
        n: Some(34),
        temperature: Some(serde_json::Number::from_f64(7.44).unwrap()),
        top_p: Some(serde_json::Number::from_f64(0.94).unwrap()),
        top_k: Some(7),
        frequency_penalty: Some(serde_json::Number::from_f64(0.222).unwrap()),
        presence_penalty: Some(serde_json::Number::from_f64(0.111).unwrap()),
        stop_sequence: Some("ssq".into()),
        message: Some("msg".into()),
        user_color: (Some([255, 0, 123]), Some([0, 123, 255])),
        apprentice_color: (Some([255, 0, 124]), Some([0, 124, 255])),
        tool_color: (Some([255, 0, 125]), Some([0, 125, 255])),
        prompt: Some("prm".into()),
    }
}

#[test]
fn test_config_try_from() {
    let options = full_options();
    let config = Config::try_from(options).expect("create from options");

    assert!(matches!(config.goal, Goal::Aws));
    assert_eq!(config.message, Some("msg".into()));
    assert_eq!(config.prompt, Some("prm".into()));
    assert!(matches!(config.model_params.provider, ModelProvider::Anthropic));
    assert_eq!(config.model_params.name, "mdl".to_owned());
    assert_eq!(config.model_params.api_key, "apk".to_owned());
    assert_eq!(config.model_params.api_url, "apr".to_owned());
    assert_eq!(config.model_params.api_version, Some("apv".into()));
    assert_eq!(config.model_params.max_tokens, Some(1024));
    assert_eq!(config.model_params.n, Some(34));
    assert_eq!(
        config.model_params.temperature,
        Some(serde_json::Number::from_f64(7.44).unwrap())
    );
    assert_eq!(config.model_params.top_p, Some(serde_json::Number::from_f64(0.94).unwrap()));
    assert_eq!(config.model_params.top_k, Some(7));
    assert_eq!(
        config.model_params.frequency_penalty,
        Some(serde_json::Number::from_f64(0.222).unwrap())
    );
    assert_eq!(
        config.model_params.presence_penalty,
        Some(serde_json::Number::from_f64(0.111).unwrap())
    );
    assert_eq!(config.model_params.stop_sequence, Some("ssq".into()));

    assert_eq!(config.settings.user_color, (Some([255, 0, 123]), Some([0, 123, 255])));
    assert_eq!(config.settings.apprentice_color, (Some([255, 0, 124]), Some([0, 124, 255])));
    assert_eq!(config.settings.tool_color, (Some([255, 0, 125]), Some([0, 125, 255])));

    let mut options = full_options();
    options.api_url = None;
    let config = Config::try_from(options).expect("create from options");
    assert_eq!(config.model_params.api_url, "https://api.anthropic.com/v1/messages");

    let mut options = full_options();
    options.api_url = None;
    options.model_provider = Some("gcp".into());
    let config = Config::try_from(options).expect("create from options");
    assert_eq!(
        config.model_params.api_url,
        "https://generativelanguage.googleapis.com/v1beta/models/mdl:generateContent"
    );

    let mut options = full_options();
    options.api_url = None;
    options.model_provider = Some("openai".into());
    let config = Config::try_from(options).expect("create from options");
    assert_eq!(config.model_params.api_url, "https://api.openai.com/v1/chat/completions");
}

#[test]
fn test_toml_parser() {
    const SAMPLE_CONTENT: &str = "
default_context = \"google_cloud\"

# Context contains a set of configuration parameters for the agent
[google_cloud]
goal = \"gcp\"                # The cloud provider agent will work with, one of gcp, aws, or azure
model_provider = \"openai\"   # Model provider, one of: openai, anthropic, gcp
model = \"gpt-4\"             # Model name
api_url = \"https://api.openai.com/v1/chat/completions\"  # Model API URL
api_key = \"<your-api-key>\"  # Model API key
api_version = \"v1.1\"        # Other parameters (depending on provider some of the parameters may be required)
max_tokens = 8192
n = 4
temperature = 0.5
top_p = 1.0
top_k = 10
frequency_penalty = 2.0
presence_penalty = 3.0
stop_sequence = \"seq\"
prompt = \"sample_prompt\"

# Second context
[google_cloud_gemini]
goal = \"gcp\"
model_provider = \"gcp\"
model = \"gemini-1.5-pro-002\"
api_url = \"https://generativelanguage.googleapis.com/v1beta/models/gemini-1.5-pro-002:generateContent\"
api_key = \"<your-api-key>\"
prompt = \"sample_prompt\"

[settings]
user_color = \"fg(1,2,3);bg(4,5,6)\"
apprentice_color = \"fg(7,8,9);bg(10,11,12)\"
tool_color = \"fg(13,14,15);bg(16,17,18)\"
";

    let mut options = Options::new();
    assert!(parse_toml_config(SAMPLE_CONTENT, &mut options).is_ok());

    assert_eq!(options.goal, Some("gcp".into()));
    assert_eq!(options.model_provider, Some("openai".into()));
    assert_eq!(options.model, Some("gpt-4".into()));
    assert_eq!(options.api_key, Some("<your-api-key>".into()));
    assert_eq!(options.api_url, Some("https://api.openai.com/v1/chat/completions".into()));
    assert_eq!(options.api_version, Some("v1.1".into()));
    assert_eq!(options.max_tokens, Some(8192));
    assert_eq!(options.n, Some(4));
    assert_eq!(options.temperature, Some(serde_json::Number::from_f64(0.5).unwrap()));
    assert_eq!(options.top_p, Some(serde_json::Number::from_f64(1.0).unwrap()));
    assert_eq!(options.top_k, Some(10));
    assert_eq!(options.frequency_penalty, Some(serde_json::Number::from_f64(2.0).unwrap()));
    assert_eq!(options.presence_penalty, Some(serde_json::Number::from_f64(3.0).unwrap()));
    assert_eq!(options.stop_sequence, Some("seq".into()));
    assert_eq!(options.message, None);
    assert_eq!(options.apprentice_color, (Some([7, 8, 9]), Some([10, 11, 12])));
    assert_eq!(options.user_color, (Some([1, 2, 3]), Some([4, 5, 6])));
    assert_eq!(options.tool_color, (Some([13, 14, 15]), Some([16, 17, 18])));
    assert_eq!(options.prompt, Some("sample_prompt".into()));
}

#[test]
fn toml_parse_rejects_bad_values() {
    let mut options = Options::new();
    let r = parse_toml_config("default_context = 7\n", &mut options);
    assert!(matches!(r, Err(AppError::ConfigParseError(_))));

    let mut options = Options::new();
    let r = parse_toml_config("not really toml [", &mut options);
    assert!(matches!(r, Err(AppError::TomlError(_))));

    let mut options = Options::new();
    let content = "default_context = \"c\"\n[c]\ntemperature = \"hot\"\n";
    let r = parse_toml_config(content, &mut options);
    assert!(matches!(r, Err(AppError::ConfigParseError(_))));
}

#[test]
fn mandatory_options_are_checked() {
    let options = full_options();
    assert!(matches!(validate_mandatory_options(&options), Err(AppError::InvalidArgError(_))));

    let mut options = full_options();
    options.n = Some(1);
    assert!(validate_mandatory_options(&options).is_ok());

    let mut options = full_options();
    options.n = None;
    options.goal = None;
    assert!(matches!(validate_mandatory_options(&options), Err(AppError::MissingArgError(_))));

    let mut options = full_options();
    options.n = None;
    options.api_key = None;
    assert!(matches!(validate_mandatory_options(&options), Err(AppError::MissingArgError(_))));
}

#[test]
fn provider_urls_are_fixed() {
    assert_eq!(
        api_url_for_provider(ModelProvider::OpenAI, "m"),
        "https://api.openai.com/v1/chat/completions"
    );
    assert_eq!(
        api_url_for_provider(ModelProvider::Anthropic, "m"),
        "https://api.anthropic.com/v1/messages"
    );
    assert_eq!(
        api_url_for_provider(ModelProvider::GCP, "mdl"),
        "https://generativelanguage.googleapis.com/v1beta/models/mdl:generateContent"
    );
    assert!(matches!(ModelProvider::try_from("azure"), Err(apprentice::Error::Error(_))));
    assert!(matches!(Goal::try_from("nope"), Err(AppError::ConfigParseError("unknown goal"))));
}
