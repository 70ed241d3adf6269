use n501_tts_lite::config::{
    build_model_config, config_from_payload, model_key, AppConfig, ConfigState, FileChange,
    UpdateConfigPayload,
};
use n501_tts_lite::error::{AppError, ErrorCode};

fn config(model: &str, url: &str, sha: &str, file: &str) -> AppConfig {
    AppConfig {
        model: model.to_string(),
        model_url: url.to_string(),
        model_sha256: sha.to_string(),
        model_filename: file.to_string(),
        record_hotkey: "Cmd+Shift+V".to_string(),
    }
}

#[test]
fn default_config_is_tiny_model() {
    let c = AppConfig::default();
    assert_eq!(c, config("tiny", "", "", "whisper-tiny.bin"));
}

#[test]
fn default_config_names_no_model() {
    let e = build_model_config(&AppConfig::default()).unwrap_err();
    assert_eq!(e.code, "MODEL_CONFIG");
    assert_eq!(e.message, "Не заданы URL, SHA256 или имя файла модели");
}

#[test]
fn blank_fields_name_no_model() {
    assert!(build_model_config(&config("m", " ", "abc", "f.bin")).is_err());
    assert!(build_model_config(&config("m", "u", "\t", "f.bin")).is_err());
    assert!(build_model_config(&config("m", "u", "abc", "")).is_err());
}

#[test]
fn model_description_copies_the_fields() {
    let m = build_model_config(&config("base", " https://x/m.bin ", "ABC", "m.bin")).unwrap();
    assert_eq!(m.name, "base");
    assert_eq!(m.url, " https://x/m.bin ");
    assert_eq!(m.sha256, "ABC");
    assert_eq!(m.filename, "m.bin");
}

#[test]
fn model_key_joins_fields() {
    assert_eq!(model_key(&config("tiny", "u", "s", "f")), "tiny|u|s|f");
    assert_eq!(model_key(&config("", "", "", "")), "|||");
}

#[test]
fn model_key_tells_configs_apart() {
    let a = model_key(&config("tiny", "u", "s", "f"));
    let b = model_key(&config("tiny", "u", "s", "g"));
    let c = model_key(&config("tin", "yu", "s", "f"));
    assert_ne!(a, b);
    assert_ne!(a, c);
}

#[test]
fn payload_becomes_config() {
    let p = UpdateConfigPayload {
        model: "base".to_string(),
        model_url: "u".to_string(),
        model_sha256: "s".to_string(),
        model_filename: "f".to_string(),
    };
    let mut expected = config("base", "u", "s", "f");
    expected.record_hotkey = "Ctrl+Alt+R".to_string();
    assert_eq!(config_from_payload(p, "Ctrl+Alt+R".to_string()), expected);
}

#[test]
fn own_write_is_recognised_once() {
    let mut state = ConfigState::new(AppConfig::default());
    let c = config("base", "u", "s", "f");
    state.record_write(c.clone(), "model: base\n".to_string());
    assert_eq!(state.observe_file("model: other\n"), FileChange::External);
    assert_eq!(state.get(), c);
    assert_eq!(state.observe_file("model: base\n"), FileChange::OwnWrite);
    assert_eq!(state.get(), c);
    assert!(state.last_written.is_none());
    assert_eq!(state.observe_file("model: base\n"), FileChange::External);
}

#[test]
fn outside_edit_replaces_config() {
    let mut state = ConfigState::new(AppConfig::default());
    assert_eq!(state.observe_file("anything"), FileChange::External);
    let c = config("small", "u", "s", "f");
    state.apply_external(c.clone());
    assert_eq!(state.get(), c);
}

#[test]
fn app_error_constructors() {
    let e = AppError::new("AUDIO_SEND", "closed");
    assert_eq!(e.code, "AUDIO_SEND");
    assert_eq!(e.message, "closed");
    let e = AppError::from_code(ErrorCode::Io, "disk");
    assert_eq!(e.code, "\"IO\"");
    assert_eq!(e.message, "disk");
    assert_eq!(ErrorCode::PresetNotFound.to_string(), "\"PRESET_NOT_FOUND\"");
    assert_eq!(ErrorCode::AudioDevice.to_string(), "\"AUDIO_DEVICE\"");
    assert_eq!(ErrorCode::Unexpected.to_string(), "\"UNEXPECTED\"");
}
