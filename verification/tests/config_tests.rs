use dictate::config::{env_file_candidates, Config, ASSEMBLYAI_KEY_VAR, GEMINI_KEY_VAR};

#[test]
fn both_keys_make_a_config() {
    let c = Config::load(Some("aai".into()), Some("gem".into())).ok().expect("both set");
    assert_eq!(c.assemblyai_api_key, "aai");
    assert_eq!(c.gemini_api_key, "gem");
}

#[test]
fn missing_assemblyai_key_reported_first() {
    match Config::load(None, None) {
        Err(e) => assert_eq!(e.message(), "ASSEMBLYAI_API_KEY not set (check .env)"),
        Ok(_) => panic!("expected an error"),
    }
}

#[test]
fn missing_gemini_key_reported() {
    match Config::load(Some("aai".into()), None) {
        Err(e) => assert_eq!(e.message(), "GEMINI_API_KEY not set (check .env)"),
        Ok(_) => panic!("expected an error"),
    }
}

#[test]
fn env_names_and_files() {
    assert_eq!(ASSEMBLYAI_KEY_VAR, "ASSEMBLYAI_API_KEY");
    assert_eq!(GEMINI_KEY_VAR, "GEMINI_API_KEY");
    assert_eq!(env_file_candidates(), vec!["../.env", "../../.env", "../../../.env"]);
}
