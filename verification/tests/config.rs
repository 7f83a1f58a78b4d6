use swt2::config::AppConfig;
use swt2::settings::{set_nested, SettingValue};

fn text(s: &str) -> SettingValue {
    SettingValue {
        text: Some(s.to_string()),
        flag: None,
        as_u16: Err("invalid type: string, expected u16".to_string()),
        as_u32: Err("invalid type: string, expected u32".to_string()),
        as_f64_bits: Err("invalid type: string, expected f64".to_string()),
    }
}

fn flag(b: bool) -> SettingValue {
    SettingValue {
        text: None,
        flag: Some(b),
        as_u16: Err("invalid type: boolean, expected u16".to_string()),
        as_u32: Err("invalid type: boolean, expected u32".to_string()),
        as_f64_bits: Err("invalid type: boolean, expected f64".to_string()),
    }
}

fn number(n: u64) -> SettingValue {
    SettingValue {
        text: None,
        flag: None,
        as_u16: u16::try_from(n).map_err(|_| format!("invalid value: integer `{}`, expected u16", n)),
        as_u32: u32::try_from(n).map_err(|_| format!("invalid value: integer `{}`, expected u32", n)),
        as_f64_bits: Ok((n as f64).to_bits()),
    }
}

#[test]
fn defaults_match_the_distributed_configuration() {
    let c = AppConfig::default();
    assert_eq!(c.asr.default_model, "Qwen/Qwen3-ASR-0.6B-GGUF");
    assert_eq!(c.asr.device, "cuda:0");
    assert_eq!(c.vad.max_segment_time, 60000);
    assert_eq!(f64::from_bits(c.tts.speed), 1.0);
    assert_eq!(c.realtime_asr.sample_rate, 16000);
    assert_eq!(f64::from_bits(c.realtime_asr.vad.energy_threshold), 0.02);
    assert_eq!(f64::from_bits(c.realtime_asr.vad.max_speech_s), 15.0);
    assert_eq!(c.realtime_asr.vad.speech_pad_ms, 160);
    assert_eq!(c.api_server.port, 8000);
    assert_eq!(c.api_server.cpp_port, 8080);
    assert_eq!(c.ui.theme, "light");
    assert_eq!(c.ui.language, "zh");
    assert!(c.advanced.auto_save_history);
    assert_eq!(c.llm.api_url, "https://api.deepseek.com/v1");
    assert_eq!(c.llm.model, "deepseek-v4-flash");
    assert!(!c.llm.enabled);
    assert!(c.updater.auto_check);
    assert_eq!(c.conversation.llm_system_prompt, "你是一个友好的语音助手。请用简洁的中文回答。");
    assert_eq!(f64::from_bits(c.conversation.vad_energy_threshold), 0.02);
    assert_eq!(c.voice_input.hotkey, "Ctrl+Alt+Space");
}

#[test]
fn sanitized_masks_set_keys_only() {
    let mut c = AppConfig::default();
    let s = c.sanitized();
    assert_eq!(s.llm.api_key, "");
    assert_eq!(s.api_server.api_key, "");
    c.llm.api_key = "sk-123".to_string();
    let s = c.sanitized();
    assert_eq!(s.llm.api_key, "••••••••");
    assert_eq!(s.api_server.api_key, "");
    assert_eq!(s.llm.api_url, c.llm.api_url);
    assert_eq!(s.llm.model, c.llm.model);
    let twice = s.sanitized();
    assert_eq!(twice.llm.api_key, "••••••••");
}

#[test]
fn set_string_setting() {
    let mut c = AppConfig::default();
    assert!(set_nested(&mut c, "ui.theme", text("dark")).is_ok());
    assert_eq!(c.ui.theme, "dark");
    assert!(set_nested(&mut c, "llm.api_key", text("secret")).is_ok());
    assert_eq!(c.llm.api_key, "secret");
    assert_eq!(c.sanitized().llm.api_key, "••••••••");
}

#[test]
fn set_bool_and_number_settings() {
    let mut c = AppConfig::default();
    assert!(set_nested(&mut c, "llm.enabled", flag(true)).is_ok());
    assert!(c.llm.enabled);
    assert!(set_nested(&mut c, "api_server.port", number(9000)).is_ok());
    assert_eq!(c.api_server.port, 9000);
    assert!(set_nested(&mut c, "vad.max_segment_time", number(120000)).is_ok());
    assert_eq!(c.vad.max_segment_time, 120000);
    assert!(set_nested(&mut c, "tts.speed", number(2)).is_ok());
    assert_eq!(f64::from_bits(c.tts.speed), 2.0);
}

#[test]
fn refused_settings_leave_config_unchanged() {
    let mut c = AppConfig::default();
    assert_eq!(set_nested(&mut c, "ui.theme", flag(true)), Err("Expected string value".to_string()));
    assert_eq!(c.ui.theme, "light");
    assert_eq!(set_nested(&mut c, "llm.enabled", text("yes")), Err("Expected boolean value".to_string()));
    assert!(!c.llm.enabled);
    assert_eq!(
        set_nested(&mut c, "api_server.port", number(70000)),
        Err("invalid value: integer `70000`, expected u16".to_string())
    );
    assert_eq!(c.api_server.port, 8000);
    assert_eq!(set_nested(&mut c, "ui.colour", text("x")), Err("Unknown config key: ui.colour".to_string()));
    assert_eq!(set_nested(&mut c, "asr.model_path", text("x")), Err("Unknown config key: asr.model_path".to_string()));
    assert_eq!(c.asr.model_path, "llm");
}

#[test]
fn setting_twice_equals_setting_once() {
    let mut a = AppConfig::default();
    let mut b = AppConfig::default();
    set_nested(&mut a, "voice_input.hotkey", text("F9")).unwrap();
    set_nested(&mut b, "voice_input.hotkey", text("F9")).unwrap();
    set_nested(&mut b, "voice_input.hotkey", text("F9")).unwrap();
    assert_eq!(a.voice_input.hotkey, b.voice_input.hotkey);
}
